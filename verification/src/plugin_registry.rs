//! The registry of loaded plugins: one backend per name, kept in name order,
//! with the checks that come before a load.

use vstd::prelude::*;
use crate::plugin::{
    backend_kind, backend_metadata, backend_name, backend_of, built_from, PluginBackend, PluginBackendKind,
    PluginDefinition, PluginError, PluginMetadata, PluginResult,
};
use crate::text::{chars_of, is_blank, is_blank_seq};

verus! {

/// Code-point lexicographic order on names, which for UTF-8 text is also the
/// byte order that `str`'s `Ord` uses.
pub open spec fn name_lt(a: Seq<char>, b: Seq<char>) -> bool
    decreases a.len(),
{
    if a.len() == 0 {
        b.len() > 0
    } else if b.len() == 0 {
        false
    } else if a[0] != b[0] {
        (a[0] as int) < (b[0] as int)
    } else {
        name_lt(a.drop_first(), b.drop_first())
    }
}

/// The outcome of comparing two names.
#[derive(Debug, Clone, Copy, PartialEq, Eq, Structural)]
pub enum NameOrder {
    /// The first name sorts before the second.
    Before,
    /// The names are equal.
    Same,
    /// The first name sorts after the second.
    After,
}

/// No name sorts before itself.
pub proof fn lemma_name_lt_irreflexive(a: Seq<char>)
    ensures
        !name_lt(a, a),
    decreases a.len(),
{
    if a.len() > 0 {
        lemma_name_lt_irreflexive(a.drop_first());
    }
}

/// The name order is transitive.
pub proof fn lemma_name_lt_transitive(a: Seq<char>, b: Seq<char>, c: Seq<char>)
    requires
        name_lt(a, b),
        name_lt(b, c),
    ensures
        name_lt(a, c),
    decreases a.len(),
{
    if a.len() > 0 && b.len() > 0 && c.len() > 0 && a[0] == b[0] && b[0] == c[0] {
        lemma_name_lt_transitive(a.drop_first(), b.drop_first(), c.drop_first());
    }
}

/// Any two different names are ordered one way or the other.
pub proof fn lemma_name_lt_total(a: Seq<char>, b: Seq<char>)
    requires
        a != b,
    ensures
        name_lt(a, b) || name_lt(b, a),
    decreases a.len(),
{
    if a.len() == 0 {
        assert(b.len() > 0) by {
            if b.len() == 0 {
                assert(a =~= b);
            }
        }
    } else if b.len() > 0 && a[0] == b[0] {
        assert(a.drop_first() != b.drop_first()) by {
            if a.drop_first() =~= b.drop_first() {
                assert(a =~= b) by {
                    assert forall|i: int| 0 <= i < a.len() implies a[i] == b[i] by {
                        if i > 0 {
                            assert(a[i] == a.drop_first()[i - 1]);
                            assert(b[i] == b.drop_first()[i - 1]);
                        }
                    }
                }
            }
        }
        lemma_name_lt_total(a.drop_first(), b.drop_first());
    }
}

/// The code point of a character.
fn char_code(c: char) -> (r: u32)
    ensures
        r as int == c as int,
{
    c as u32
}

/// Compares two names in the name order.
pub fn compare_names(a: &str, b: &str) -> (r: NameOrder)
    ensures
        r == NameOrder::Before <==> name_lt(a@, b@),
        r == NameOrder::Same <==> a@ == b@,
        r == NameOrder::After <==> name_lt(b@, a@),
{
    let v = chars_of(a);
    let w = chars_of(b);
    let mut i: usize = 0;
    assert(v@.subrange(0, v@.len() as int) =~= v@);
    assert(w@.subrange(0, w@.len() as int) =~= w@);
    while i < v.len() && i < w.len() && v[i] == w[i]
        invariant
            v@ == a@,
            w@ == b@,
            i <= v@.len(),
            i <= w@.len(),
            forall|k: int| 0 <= k < i ==> v@[k] == w@[k],
            name_lt(v@, w@) == name_lt(
                v@.subrange(i as int, v@.len() as int),
                w@.subrange(i as int, w@.len() as int),
            ),
            name_lt(w@, v@) == name_lt(
                w@.subrange(i as int, w@.len() as int),
                v@.subrange(i as int, v@.len() as int),
            ),
        decreases v.len() - i,
    {
        proof {
            let s = v@.subrange(i as int, v@.len() as int);
            let t = w@.subrange(i as int, w@.len() as int);
            assert(s.drop_first() =~= v@.subrange(i + 1, v@.len() as int));
            assert(t.drop_first() =~= w@.subrange(i + 1, w@.len() as int));
            assert(s[0] == t[0]);
        }
        i = i + 1;
    }
    let s = Ghost(v@.subrange(i as int, v@.len() as int));
    let t = Ghost(w@.subrange(i as int, w@.len() as int));
    proof {
        lemma_name_lt_irreflexive(v@);
    }
    if i == v.len() && i == w.len() {
        assert(v@ =~= w@);
        NameOrder::Same
    } else if i == v.len() {
        assert(v@ != w@);
        assert(s@.len() == 0 && t@.len() > 0);
        NameOrder::Before
    } else if i == w.len() {
        assert(v@.len() != w@.len());
        assert(s@.len() > 0 && t@.len() == 0);
        NameOrder::After
    } else if char_code(v[i]) < char_code(w[i]) {
        assert(v@[i as int] != w@[i as int]);
        assert(s@[0] == v@[i as int] && t@[0] == w@[i as int]);
        NameOrder::Before
    } else {
        assert(v@[i as int] != w@[i as int]);
        assert(s@[0] == v@[i as int] && t@[0] == w@[i as int]);
        NameOrder::After
    }
}

/// Entries strictly increasing by name, hence with distinct names.
pub open spec fn sorted_by_name(e: Seq<PluginBackend>) -> bool {
    forall|i: int, j: int|
        0 <= i < j < e.len() ==> name_lt(backend_name(#[trigger] e[i]), backend_name(#[trigger] e[j]))
}

/// The entries as a map from name to backend.
pub open spec fn entries_map(e: Seq<PluginBackend>) -> Map<Seq<char>, PluginBackend> {
    Map::new(
        |k: Seq<char>| exists|i: int| 0 <= i < e.len() && backend_name(e[i]) == k,
        |k: Seq<char>| e[choose|i: int| 0 <= i < e.len() && backend_name(e[i]) == k],
    )
}

proof fn lemma_sorted_distinct(e: Seq<PluginBackend>, i: int, j: int)
    requires
        sorted_by_name(e),
        0 <= i < e.len(),
        0 <= j < e.len(),
        backend_name(e[i]) == backend_name(e[j]),
    ensures
        i == j,
{
    if i < j {
        assert(name_lt(backend_name(e[i]), backend_name(e[j])));
        lemma_name_lt_irreflexive(backend_name(e[i]));
    } else if j < i {
        assert(name_lt(backend_name(e[j]), backend_name(e[i])));
        lemma_name_lt_irreflexive(backend_name(e[i]));
    }
}

proof fn lemma_map_at(e: Seq<PluginBackend>, i: int)
    requires
        sorted_by_name(e),
        0 <= i < e.len(),
    ensures
        entries_map(e).dom().contains(backend_name(e[i])),
        entries_map(e)[backend_name(e[i])] == e[i],
{
    let k = backend_name(e[i]);
    assert(entries_map(e).dom().contains(k));
    let j = choose|j: int| 0 <= j < e.len() && backend_name(e[j]) == k;
    lemma_sorted_distinct(e, i, j);
}

/// Loading and unloading, on the registry's map of names to backends: once
/// a backend is loaded its name is taken, so a second load of that name is
/// refused; unloading the name gives that backend back and leaves the other
/// plugins as they were; a second unload finds nothing.
pub proof fn law_load_unload_round_trip(before: Map<Seq<char>, PluginBackend>, b: PluginBackend)
    ensures
        ({
            let k = backend_name(b);
            let after = before.insert(k, b);
            &&& after.dom().contains(k)
            &&& after[k] == b
            &&& after.remove(k) =~= before.remove(k)
            &&& !after.remove(k).dom().contains(k)
        }),
{
}

/// The loaded plugins: at most one backend per name, in name order.
pub struct PluginRegistry {
    entries: Vec<PluginBackend>,
}

impl View for PluginRegistry {
    type V = Map<Seq<char>, PluginBackend>;

    closed spec fn view(&self) -> Map<Seq<char>, PluginBackend> {
        entries_map(self.entries@)
    }
}

impl PluginRegistry {
    /// The registry is in name order.
    pub closed spec fn wf(&self) -> bool {
        sorted_by_name(self.entries@)
    }

    /// Every backend is registered under its own name.
    pub proof fn lemma_keys_are_names(&self)
        requires
            self.wf(),
        ensures
            forall|k: Seq<char>|
                #![trigger self@[k]]
                self@.dom().contains(k) ==> backend_name(self@[k]) == k,
            self@.dom().finite(),
    {
        assert forall|k: Seq<char>| #![trigger self@[k]] self@.dom().contains(k) implies backend_name(
            self@[k],
        ) == k by {
            let i = choose|i: int| 0 <= i < self.entries@.len() && backend_name(self.entries@[i]) == k;
            lemma_map_at(self.entries@, i);
        }
        let names = self.entries@.map_values(|b: PluginBackend| backend_name(b));
        assert(self@.dom() =~= names.to_set()) by {
            assert forall|k: Seq<char>| self@.dom().contains(k) implies names.to_set().contains(k) by {
                let i = choose|i: int| 0 <= i < self.entries@.len() && backend_name(self.entries@[i]) == k;
                assert(names[i] == k);
            }
            assert forall|k: Seq<char>| names.to_set().contains(k) implies self@.dom().contains(k) by {
                let i = choose|i: int| 0 <= i < names.len() && names[i] == k;
                assert(backend_name(self.entries@[i]) == k);
            }
        }
        vstd::seq_lib::seq_to_set_is_finite(names);
    }

    /// An empty registry.
    pub fn new() -> (r: Self)
        ensures
            r.wf(),
            r@ == Map::<Seq<char>, PluginBackend>::empty(),
    {
        let r = PluginRegistry { entries: Vec::new() };
        assert(r@ =~= Map::<Seq<char>, PluginBackend>::empty());
        r
    }

    /// The position of `name`, or of the first entry after it.
    fn position(&self, name: &str) -> (r: (usize, bool))
        requires
            self.wf(),
        ensures
            r.0 <= self.entries@.len(),
            forall|i: int| 0 <= i < r.0 ==> name_lt(backend_name(#[trigger] self.entries@[i]), name@),
            r.1 ==> r.0 < self.entries@.len() && backend_name(self.entries@[r.0 as int]) == name@,
            !r.1 ==> forall|i: int|
                r.0 <= i < self.entries@.len() ==> name_lt(name@, backend_name(#[trigger] self.entries@[i])),
    {
        let mut i: usize = 0;
        while i < self.entries.len()
            invariant
                self.wf(),
                i <= self.entries@.len(),
                forall|k: int| 0 <= k < i ==> name_lt(backend_name(#[trigger] self.entries@[k]), name@),
            decreases self.entries.len() - i,
        {
            let order = compare_names(self.entries[i].metadata().name.as_str(), name);
            match order {
                NameOrder::Before => {},
                NameOrder::Same => {
                    return (i, true);
                },
                NameOrder::After => {
                    proof {
                        assert forall|k: int| i <= k < self.entries@.len() implies name_lt(
                            name@,
                            backend_name(#[trigger] self.entries@[k]),
                        ) by {
                            if k > i {
                                assert(name_lt(
                                    backend_name(self.entries@[i as int]),
                                    backend_name(self.entries@[k]),
                                ));
                                lemma_name_lt_transitive(
                                    name@,
                                    backend_name(self.entries@[i as int]),
                                    backend_name(self.entries@[k]),
                                );
                            }
                        }
                    }
                    return (i, false);
                },
            }
            i = i + 1;
        }
        (i, false)
    }

    /// Whether a plugin of that name is loaded.
    pub fn contains(&self, name: &str) -> (r: bool)
        requires
            self.wf(),
        ensures
            r == self@.dom().contains(name@),
    {
        let (i, found) = self.position(name);
        proof {
            if found {
                lemma_map_at(self.entries@, i as int);
            } else if self@.dom().contains(name@) {
                let j = choose|j: int|
                    0 <= j < self.entries@.len() && backend_name(self.entries@[j]) == name@;
                lemma_name_lt_irreflexive(name@);
                if j < i {
                    assert(name_lt(backend_name(self.entries@[j]), name@));
                } else {
                    assert(name_lt(name@, backend_name(self.entries@[j])));
                }
            }
        }
        found
    }

    /// Checks a definition before loading: its name must not be blank, it
    /// must be enabled, and no plugin of that name may be loaded.
    pub fn check_load(&self, definition: &PluginDefinition) -> (r: PluginResult<()>)
        requires
            self.wf(),
        ensures
            ({
                let name = definition.metadata.name;
                &&& is_blank_seq(name@) ==> r == Err::<(), PluginError>(PluginError::EmptyName)
                &&& !is_blank_seq(name@) && !definition.enabled ==> r == Err::<(), PluginError>(
                    PluginError::Disabled { name },
                )
                &&& !is_blank_seq(name@) && definition.enabled && self@.dom().contains(name@) ==> r
                    == Err::<(), PluginError>(PluginError::AlreadyLoaded { name })
                &&& !is_blank_seq(name@) && definition.enabled && !self@.dom().contains(name@)
                    ==> r is Ok
            }),
    {
        let name = &definition.metadata.name;
        if is_blank(name.as_str()) {
            return Err(PluginError::EmptyName);
        }
        if !definition.enabled {
            return Err(PluginError::Disabled { name: name.clone() });
        }
        if self.contains(name.as_str()) {
            return Err(PluginError::AlreadyLoaded { name: name.clone() });
        }
        Ok(())
    }

    /// The load checks, then the backend the definition describes.
    pub fn prepare_load(&self, definition: PluginDefinition) -> (r: PluginResult<PluginBackend>)
        requires
            self.wf(),
        ensures
            ({
                let name = definition.metadata.name;
                &&& is_blank_seq(name@) ==> r == Err::<PluginBackend, PluginError>(
                    PluginError::EmptyName,
                )
                &&& !is_blank_seq(name@) && !definition.enabled ==> r == Err::<
                    PluginBackend,
                    PluginError,
                >(PluginError::Disabled { name })
                &&& !is_blank_seq(name@) && definition.enabled && self@.dom().contains(name@) ==> r
                    == Err::<PluginBackend, PluginError>(PluginError::AlreadyLoaded { name })
                &&& r matches Ok(b) ==> b == backend_of(definition) && !is_blank_seq(name@)
                    && definition.enabled && !self@.dom().contains(name@)
                &&& !is_blank_seq(name@) && definition.enabled && !self@.dom().contains(name@)
                    ==> exists|present: bool| built_from(definition, present, r)
            }),
    {
        match self.check_load(&definition) {
            Ok(()) => {},
            Err(e) => {
                return Err(e);
            },
        }
        PluginBackend::from_definition(definition)
    }

    /// Registers `backend` under its name, replacing any backend of that name.
    pub fn insert(&mut self, backend: PluginBackend)
        requires
            old(self).wf(),
        ensures
            final(self).wf(),
            final(self)@ == old(self)@.insert(backend_name(backend), backend),
    {
        let ghost old_e = self.entries@;
        let ghost k = backend_name(backend);
        let (p, found) = self.position(backend.metadata().name.as_str());
        if found {
            self.entries.set(p, backend);
            proof {
                let e = self.entries@;
                assert(e =~= old_e.update(p as int, backend));
                assert forall|i: int, j: int| 0 <= i < j < e.len() implies name_lt(
                    backend_name(#[trigger] e[i]),
                    backend_name(#[trigger] e[j]),
                ) by {
                    assert(name_lt(backend_name(old_e[i]), backend_name(old_e[j])));
                }
                assert(sorted_by_name(e));
                assert(entries_map(e) =~= entries_map(old_e).insert(k, backend)) by {
                    assert forall|n: Seq<char>| #[trigger] entries_map(e).dom().contains(n) <==> (n
                        == k || entries_map(old_e).dom().contains(n)) by {
                        if n == k {
                            assert(backend_name(e[p as int]) == n);
                        }
                        if entries_map(old_e).dom().contains(n) {
                            let i = choose|i: int| 0 <= i < old_e.len() && backend_name(old_e[i]) == n;
                            assert(backend_name(e[i]) == n);
                        }
                        if entries_map(e).dom().contains(n) {
                            let i = choose|i: int| 0 <= i < e.len() && backend_name(e[i]) == n;
                            assert(backend_name(old_e[i]) == n);
                        }
                    }
                    assert forall|n: Seq<char>| #[trigger] entries_map(e).dom().contains(n) implies entries_map(
                        e,
                    )[n] == entries_map(old_e).insert(k, backend)[n] by {
                        let i = choose|i: int| 0 <= i < e.len() && backend_name(e[i]) == n;
                        lemma_map_at(e, i);
                        if i != p {
                            lemma_map_at(old_e, i);
                            if n == k {
                                lemma_sorted_distinct(old_e, i, p as int);
                            }
                        }
                    }
                }
            }
        } else {
            self.entries.insert(p, backend);
            proof {
                let e = self.entries@;
                assert(e =~= old_e.insert(p as int, backend));
                assert forall|i: int, j: int| 0 <= i < j < e.len() implies name_lt(
                    backend_name(#[trigger] e[i]),
                    backend_name(#[trigger] e[j]),
                ) by {
                    if j < p {
                        assert(name_lt(backend_name(old_e[i]), backend_name(old_e[j])));
                    } else if j == p {
                        assert(name_lt(backend_name(old_e[i]), k));
                    } else if i < p {
                        assert(name_lt(backend_name(old_e[i]), k));
                        assert(name_lt(k, backend_name(old_e[j - 1])));
                        lemma_name_lt_transitive(backend_name(old_e[i]), k, backend_name(old_e[j - 1]));
                    } else if i == p {
                        assert(name_lt(k, backend_name(old_e[j - 1])));
                    } else {
                        assert(name_lt(backend_name(old_e[i - 1]), backend_name(old_e[j - 1])));
                    }
                }
                assert(sorted_by_name(e));
                assert(entries_map(e) =~= entries_map(old_e).insert(k, backend)) by {
                    assert forall|n: Seq<char>| #[trigger] entries_map(e).dom().contains(n) <==> (n
                        == k || entries_map(old_e).dom().contains(n)) by {
                        if n == k {
                            assert(backend_name(e[p as int]) == n);
                        }
                        if entries_map(old_e).dom().contains(n) {
                            let i = choose|i: int| 0 <= i < old_e.len() && backend_name(old_e[i]) == n;
                            if i < p {
                                assert(backend_name(e[i]) == n);
                            } else {
                                assert(backend_name(e[i + 1]) == n);
                            }
                        }
                        if entries_map(e).dom().contains(n) {
                            let i = choose|i: int| 0 <= i < e.len() && backend_name(e[i]) == n;
                            if i < p {
                                assert(backend_name(old_e[i]) == n);
                            } else if i > p {
                                assert(backend_name(old_e[i - 1]) == n);
                            }
                        }
                    }
                    assert forall|n: Seq<char>| #[trigger] entries_map(e).dom().contains(n) implies entries_map(
                        e,
                    )[n] == entries_map(old_e).insert(k, backend)[n] by {
                        let i = choose|i: int| 0 <= i < e.len() && backend_name(e[i]) == n;
                        lemma_map_at(e, i);
                        if i < p {
                            lemma_map_at(old_e, i);
                            assert(name_lt(n, k));
                            lemma_name_lt_irreflexive(n);
                        } else if i > p {
                            lemma_map_at(old_e, i - 1);
                            assert(name_lt(k, n));
                            lemma_name_lt_irreflexive(n);
                        }
                    }
                }
            }
        }
    }

    /// Finishes a load once the backend's own load step has run: a loaded
    /// backend is registered and its name returned; a failed load step is
    /// passed on and the registry left as it was.
    pub fn complete_load(&mut self, backend: PluginBackend, loaded: PluginResult<()>) -> (r:
        PluginResult<String>)
        requires
            old(self).wf(),
        ensures
            final(self).wf(),
            loaded is Ok ==> (r matches Ok(n) && n@ == backend_name(backend)) && final(self)@ == old(
                self,
            )@.insert(backend_name(backend), backend),
            loaded matches Err(e) ==> r == Err::<String, PluginError>(e) && final(self)@ == old(
                self,
            )@,
    {
        match loaded {
            Ok(()) => {
                let name = backend.metadata().name.clone();
                self.insert(backend);
                Ok(name)
            },
            Err(e) => Err(e),
        }
    }

    /// Removes the backend registered under `name`, or reports that none is.
    pub fn remove(&mut self, name: &str) -> (r: PluginResult<PluginBackend>)
        requires
            old(self).wf(),
        ensures
            final(self).wf(),
            old(self)@.dom().contains(name@) ==> r == Ok::<PluginBackend, PluginError>(
                old(self)@[name@],
            ) && final(self)@ == old(self)@.remove(name@),
            !old(self)@.dom().contains(name@) ==> (r matches Err(PluginError::NotFound { name: n })
                && n@ == name@) && final(self)@ == old(self)@,
    {
        let ghost old_e = self.entries@;
        let present = self.contains(name);
        if !present {
            return Err(PluginError::NotFound { name: String::from_str(name) });
        }
        let (p, found) = self.position(name);
        proof {
            if !found {
                let j = choose|j: int| 0 <= j < old_e.len() && backend_name(old_e[j]) == name@;
                lemma_name_lt_irreflexive(name@);
                if j < p {
                    assert(name_lt(backend_name(old_e[j]), name@));
                } else {
                    assert(name_lt(name@, backend_name(old_e[j])));
                }
            }
            lemma_map_at(old_e, p as int);
        }
        let b = self.entries.remove(p);
        proof {
            let e = self.entries@;
            assert(e =~= old_e.remove(p as int));
            assert forall|i: int, j: int| 0 <= i < j < e.len() implies name_lt(
                backend_name(#[trigger] e[i]),
                backend_name(#[trigger] e[j]),
            ) by {
                if j < p {
                    assert(name_lt(backend_name(old_e[i]), backend_name(old_e[j])));
                } else if i < p {
                    assert(name_lt(backend_name(old_e[i]), backend_name(old_e[j + 1])));
                } else {
                    assert(name_lt(backend_name(old_e[i + 1]), backend_name(old_e[j + 1])));
                }
            }
            assert(sorted_by_name(e));
            assert(entries_map(e) =~= entries_map(old_e).remove(name@)) by {
                assert forall|n: Seq<char>| #[trigger] entries_map(e).dom().contains(n) <==> (n
                    != name@ && entries_map(old_e).dom().contains(n)) by {
                    if entries_map(old_e).dom().contains(n) && n != name@ {
                        let i = choose|i: int| 0 <= i < old_e.len() && backend_name(old_e[i]) == n;
                        if i < p {
                            assert(backend_name(e[i]) == n);
                        } else {
                            assert(i != p);
                            assert(backend_name(e[i - 1]) == n);
                        }
                    }
                    if entries_map(e).dom().contains(n) {
                        let i = choose|i: int| 0 <= i < e.len() && backend_name(e[i]) == n;
                        if i < p {
                            assert(backend_name(old_e[i]) == n);
                            if n == name@ {
                                lemma_sorted_distinct(old_e, i, p as int);
                            }
                        } else {
                            assert(backend_name(old_e[i + 1]) == n);
                            if n == name@ {
                                lemma_sorted_distinct(old_e, i + 1, p as int);
                            }
                        }
                    }
                }
                assert forall|n: Seq<char>| #[trigger] entries_map(e).dom().contains(n) implies entries_map(
                    e,
                )[n] == entries_map(old_e).remove(name@)[n] by {
                    let i = choose|i: int| 0 <= i < e.len() && backend_name(e[i]) == n;
                    lemma_map_at(e, i);
                    if i < p {
                        lemma_map_at(old_e, i);
                    } else {
                        lemma_map_at(old_e, i + 1);
                    }
                }
            }
        }
        Ok(b)
    }

    /// The metadata of the plugin registered under `name`.
    pub fn metadata(&self, name: &str) -> (r: PluginResult<PluginMetadata>)
        requires
            self.wf(),
        ensures
            self@.dom().contains(name@) ==> r == Ok::<PluginMetadata, PluginError>(
                backend_metadata(self@[name@]),
            ),
            !self@.dom().contains(name@) ==> (r matches Err(PluginError::NotFound { name: n })
                && n@ == name@),
    {
        let present = self.contains(name);
        if !present {
            return Err(PluginError::NotFound { name: String::from_str(name) });
        }
        let (p, found) = self.position(name);
        proof {
            if !found {
                let j = choose|j: int|
                    0 <= j < self.entries@.len() && backend_name(self.entries@[j]) == name@;
                lemma_name_lt_irreflexive(name@);
                if j < p {
                    assert(name_lt(backend_name(self.entries@[j]), name@));
                } else {
                    assert(name_lt(name@, backend_name(self.entries@[j])));
                }
            }
            lemma_map_at(self.entries@, p as int);
        }
        Ok(self.entries[p].metadata().clone())
    }

    /// The names of the loaded plugins, in name order.
    pub fn list(&self) -> (r: Vec<String>)
        requires
            self.wf(),
        ensures
            forall|i: int, j: int| 0 <= i < j < r@.len() ==> name_lt(#[trigger] r@[i]@, #[trigger] r@[j]@),
            forall|k: Seq<char>| self@.dom().contains(k) <==> exists|i: int| 0 <= i < r@.len() && #[trigger] r@[i]@ == k,
    {
        let mut r: Vec<String> = Vec::new();
        let mut i: usize = 0;
        while i < self.entries.len()
            invariant
                self.wf(),
                i <= self.entries@.len(),
                r@.len() == i,
                forall|k: int| 0 <= k < i ==> #[trigger] r@[k]@ == backend_name(self.entries@[k]),
            decreases self.entries.len() - i,
        {
            r.push(self.entries[i].metadata().name.clone());
            i = i + 1;
        }
        proof {
            assert forall|a: int, b: int| 0 <= a < b < r@.len() implies name_lt(#[trigger] r@[a]@, #[trigger] r@[b]@) by {
                assert(name_lt(backend_name(self.entries@[a]), backend_name(self.entries@[b])));
            }
            assert forall|k: Seq<char>| self@.dom().contains(k) <==> exists|i: int| 0 <= i < r@.len() && #[trigger] r@[i]@ == k by {
                if self@.dom().contains(k) {
                    let j = choose|j: int| 0 <= j < self.entries@.len() && backend_name(self.entries@[j]) == k;
                    assert(r@[j]@ == k);
                }
                if exists|i: int| 0 <= i < r@.len() && #[trigger] r@[i]@ == k {
                    let j = choose|j: int| 0 <= j < r@.len() && #[trigger] r@[j]@ == k;
                    assert(backend_name(self.entries@[j]) == k);
                }
            }
        }
        r
    }

    /// The name and kind of each loaded plugin, in name order.
    pub fn kinds(&self) -> (r: Vec<(String, PluginBackendKind)>)
        requires
            self.wf(),
        ensures
            forall|i: int, j: int| 0 <= i < j < r@.len() ==> name_lt(#[trigger] r@[i].0@, #[trigger] r@[j].0@),
            forall|k: Seq<char>| self@.dom().contains(k) <==> exists|i: int| 0 <= i < r@.len() && #[trigger] r@[i].0@ == k,
            forall|i: int| 0 <= i < r@.len() ==> self@.dom().contains(#[trigger] r@[i].0@) && r@[i].1 == backend_kind(self@[r@[i].0@]),
    {
        let mut r: Vec<(String, PluginBackendKind)> = Vec::new();
        let mut i: usize = 0;
        while i < self.entries.len()
            invariant
                self.wf(),
                i <= self.entries@.len(),
                r@.len() == i,
                forall|k: int| 0 <= k < i ==> (#[trigger] r@[k]).0@ == backend_name(self.entries@[k])
                    && r@[k].1 == backend_kind(self.entries@[k]),
            decreases self.entries.len() - i,
        {
            let name = self.entries[i].metadata().name.clone();
            let kind = self.entries[i].kind();
            let ghost before = r@;
            r.push((name, kind));
            assert forall|k: int| 0 <= k < i + 1 implies (#[trigger] r@[k]).0@ == backend_name(
                self.entries@[k],
            ) && r@[k].1 == backend_kind(self.entries@[k]) by {
                if k < i {
                    assert(r@[k] == before[k]);
                }
            }
            i = i + 1;
        }
        proof {
            assert forall|a: int, b: int| 0 <= a < b < r@.len() implies name_lt(#[trigger] r@[a].0@, #[trigger] r@[b].0@) by {
                assert(name_lt(backend_name(self.entries@[a]), backend_name(self.entries@[b])));
            }
            assert forall|k: Seq<char>| self@.dom().contains(k) <==> exists|i: int| 0 <= i < r@.len() && #[trigger] r@[i].0@ == k by {
                if self@.dom().contains(k) {
                    let j = choose|j: int| 0 <= j < self.entries@.len() && backend_name(self.entries@[j]) == k;
                    assert(r@[j].0@ == k);
                }
                if exists|i: int| 0 <= i < r@.len() && #[trigger] r@[i].0@ == k {
                    let j = choose|j: int| 0 <= j < r@.len() && #[trigger] r@[j].0@ == k;
                    assert(backend_name(self.entries@[j]) == k);
                }
            }
            assert forall|i: int| 0 <= i < r@.len() implies self@.dom().contains(#[trigger] r@[i].0@) && r@[i].1 == backend_kind(self@[r@[i].0@]) by {
                lemma_map_at(self.entries@, i);
            }
        }
        r
    }

    /// The loaded backends, in name order.
    pub fn backends(&self) -> (r: &Vec<PluginBackend>)
        requires
            self.wf(),
        ensures
            forall|i: int| 0 <= i < r@.len() ==> self@.dom().contains(backend_name(#[trigger] r@[i]))
                && self@[backend_name(r@[i])] == r@[i],
            forall|k: Seq<char>| self@.dom().contains(k) ==> exists|i: int| 0 <= i < r@.len() && backend_name(#[trigger] r@[i]) == k,
    {
        proof {
            assert forall|i: int| 0 <= i < self.entries@.len() implies self@.dom().contains(backend_name(#[trigger] self.entries@[i]))
                && self@[backend_name(self.entries@[i])] == self.entries@[i] by {
                lemma_map_at(self.entries@, i);
            }
        }
        &self.entries
    }

    /// The number of loaded plugins.
    pub fn len(&self) -> (r: usize)
        requires
            self.wf(),
        ensures
            r == self@.len(),
    {
        proof {
            self.lemma_keys_are_names();
            let names = self.entries@.map_values(|b: PluginBackend| backend_name(b));
            assert(self@.dom() =~= names.to_set()) by {
                assert forall|k: Seq<char>| self@.dom().contains(k) implies names.to_set().contains(k) by {
                    let i = choose|i: int| 0 <= i < self.entries@.len() && backend_name(self.entries@[i]) == k;
                    assert(names[i] == k);
                }
                assert forall|k: Seq<char>| names.to_set().contains(k) implies self@.dom().contains(k) by {
                    let i = choose|i: int| 0 <= i < names.len() && names[i] == k;
                    assert(backend_name(self.entries@[i]) == k);
                }
            }
            assert(names.no_duplicates()) by {
                assert forall|i: int, j: int| 0 <= i < names.len() && 0 <= j < names.len() && i != j implies names[i] != names[j] by {
                    if names[i] == names[j] {
                        lemma_sorted_distinct(self.entries@, i, j);
                    }
                }
            }
            names.unique_seq_to_set();
        }
        self.entries.len()
    }
}

} // verus!
