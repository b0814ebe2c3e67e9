//! Shared selection types for list/tree/table widgets.
use std::hash::Hash;
use vstd::prelude::*;
use vstd::std_specs::cmp::PartialEqSpec;

verus! {

/// Whether `==` on the key type is identity and `clone` copies. Every
/// contract that speaks of which keys are selected holds under this
/// condition (it holds of the primitive integer types, `char` and `bool`).
pub open spec fn keys_behave<K: PartialEq + Clone>() -> bool {
    &&& vstd::laws_eq::obeys_concrete_eq::<K>()
    &&& forall|a: K, b: K| #[trigger] cloned(a, b) ==> a == b
}

/// Selection mode for list-like widgets.
#[derive(Debug, Clone, Copy, PartialEq, Eq, Structural)]
pub enum SelectionMode {
    /// No selection allowed.
    Disabled,
    /// Single item selection (radio-button style).
    Single,
    /// Multiple items can be selected (checkbox style).
    Multi,
}

/// The set of selected keys after a toggle of `key` in the given mode.
pub open spec fn toggled<K>(mode: SelectionMode, selected: Set<K>, key: K) -> Set<K> {
    match mode {
        SelectionMode::Disabled => selected,
        SelectionMode::Single => {
            if selected.contains(key) {
                Set::empty()
            } else {
                Set::empty().insert(key)
            }
        },
        SelectionMode::Multi => {
            if selected.contains(key) {
                selected.remove(key)
            } else {
                selected.insert(key)
            }
        },
    }
}

/// Tracks selected items by their keys.
///
/// The keys are held in insertion order; the selection is the set of keys
/// that occur in `selected`.
#[derive(Debug, Clone)]
pub struct Selection<K: Clone + Eq + Hash> {
    pub mode: SelectionMode,
    pub selected: Vec<K>,
}

/// `a == b`, by the type's `==`.
pub fn keys_equal<K: PartialEq + Clone>(a: &K, b: &K) -> (r: bool)
    ensures
        keys_behave::<K>() ==> r == (*a == *b),
{
    proof {
        if keys_behave::<K>() {
            reveal(vstd::laws_eq::obeys_concrete_eq);
        }
    }
    *a == *b
}

/// Position of `key` in `v`, by `==`.
pub fn position_of<K: PartialEq + Clone>(v: &Vec<K>, key: &K) -> (r: Option<usize>)
    ensures
        keys_behave::<K>() ==> (r is None <==> !v@.contains(*key)),
        keys_behave::<K>() ==> (r matches Some(i) ==> i < v@.len() && v@[i as int] == *key),
{
    proof {
        if keys_behave::<K>() {
            reveal(vstd::laws_eq::obeys_concrete_eq);
        }
    }
    let mut i: usize = 0;
    while i < v.len()
        invariant
            i <= v@.len(),
            keys_behave::<K>() ==> K::obeys_eq_spec() && (forall|x: K, y: K| x.eq_spec(&y) <==> x == y),
            keys_behave::<K>() ==> forall|j: int| 0 <= j < i ==> v@[j] != *key,
        decreases v@.len() - i,
    {
        if v[i] == *key {
            return Some(i);
        }
        i = i + 1;
    }
    None
}

/// Leave out of `v` every occurrence of `key`, by `==`.
pub fn remove_all<K: PartialEq + Clone>(v: &mut Vec<K>, key: &K)
    ensures
        keys_behave::<K>() ==> final(v)@.to_set() == old(v)@.to_set().remove(*key),
        old(v)@.no_duplicates() ==> final(v)@.no_duplicates(),
{
    proof {
        if keys_behave::<K>() {
            reveal(vstd::laws_eq::obeys_concrete_eq);
        }
    }
    let mut i: usize = 0;
    while i < v.len()
        invariant
            i <= v@.len(),
            keys_behave::<K>() ==> K::obeys_eq_spec() && (forall|x: K, y: K| x.eq_spec(&y) <==> x == y),
            keys_behave::<K>() ==> forall|j: int| 0 <= j < i ==> v@[j] != *key,
            keys_behave::<K>() ==> v@.to_set().remove(*key) == old(v)@.to_set().remove(*key),
            old(v)@.no_duplicates() ==> v@.no_duplicates(),
        decreases v@.len() - i,
    {
        if v[i] == *key {
            let ghost before = v@;
            v.remove(i);
            proof {
                if before.no_duplicates() {
                    assert forall|a: int, b: int| 0 <= a < v@.len() && 0 <= b < v@.len() && a != b
                        implies v@[a] != v@[b] by {
                        let a0 = if a < i { a } else { a + 1 };
                        let b0 = if b < i { b } else { b + 1 };
                        assert(v@[a] == before[a0] && v@[b] == before[b0]);
                    }
                }
                if keys_behave::<K>() {
                    assert(v@.to_set().remove(*key) =~= before.to_set().remove(*key)) by {
                        assert forall|x: K| #[trigger] before.contains(x) && x != *key implies v@.contains(x) by {
                            let j = choose|j: int| 0 <= j < before.len() && before[j] == x;
                            if j < i {
                                assert(v@[j] == x);
                            } else {
                                assert(j > i);
                                assert(v@[j - 1] == x);
                            }
                        }
                        assert forall|x: K| #[trigger] v@.contains(x) implies before.contains(x) by {
                            let j = choose|j: int| 0 <= j < v@.len() && v@[j] == x;
                            if j < i {
                                assert(before[j] == x);
                            } else {
                                assert(before[j + 1] == x);
                            }
                        }
                    }
                }
            }
        } else {
            i = i + 1;
        }
    }
    proof {
        if keys_behave::<K>() {
            assert(!v@.contains(*key));
            assert(v@.to_set().remove(*key) =~= v@.to_set());
        }
    }
}

impl<K: Clone + Eq + Hash> Selection<K> {
    /// The selected keys.
    pub open spec fn keys(&self) -> Set<K> {
        self.selected@.to_set()
    }

    /// No key is held twice, so the held keys are the selected set itself.
    pub open spec fn wf(&self) -> bool {
        self.selected@.no_duplicates()
    }

    /// Create selection with no selection allowed.
    pub fn none() -> (r: Self)
        ensures
            r.mode == SelectionMode::Disabled,
            r.keys() == Set::<K>::empty(),
            r.wf(),
    {
        let r = Selection { mode: SelectionMode::Disabled, selected: Vec::new() };
        proof { assert(Seq::<K>::empty().to_set() =~= Set::<K>::empty()); }
        r
    }

    /// Create single-selection mode.
    pub fn single() -> (r: Self)
        ensures
            r.mode == SelectionMode::Single,
            r.keys() == Set::<K>::empty(),
            r.wf(),
    {
        let r = Selection { mode: SelectionMode::Single, selected: Vec::new() };
        proof { assert(Seq::<K>::empty().to_set() =~= Set::<K>::empty()); }
        r
    }

    /// Create multi-selection mode.
    pub fn multi() -> (r: Self)
        ensures
            r.mode == SelectionMode::Multi,
            r.keys() == Set::<K>::empty(),
            r.wf(),
    {
        let r = Selection { mode: SelectionMode::Multi, selected: Vec::new() };
        proof { assert(Seq::<K>::empty().to_set() =~= Set::<K>::empty()); }
        r
    }

    /// Create a selection of the given mode with nothing selected.
    pub fn for_mode(mode: SelectionMode) -> (r: Self)
        ensures
            r.mode == mode,
            r.keys() == Set::<K>::empty(),
            r.wf(),
    {
        match mode {
            SelectionMode::Disabled => Self::none(),
            SelectionMode::Single => Self::single(),
            SelectionMode::Multi => Self::multi(),
        }
    }

    /// Toggle selection for a key. Returns true if selection changed.
    pub fn toggle(&mut self, key: K) -> (changed: bool)
        ensures
            changed == !(old(self).mode is Disabled),
            final(self).mode == old(self).mode,
            old(self).mode is Disabled ==> final(self).selected@ == old(self).selected@,
            old(self).mode is Single ==> final(self).selected@.len() <= 1 && final(self).wf(),
            keys_behave::<K>() ==> final(self).keys() == toggled(old(self).mode, old(self).keys(), key),
            keys_behave::<K>() && old(self).wf() ==> final(self).wf(),
    {
        match self.mode {
            SelectionMode::Disabled => false,
            SelectionMode::Single => {
                let found = position_of(&self.selected, &key);
                self.selected = Vec::new();
                if found.is_none() {
                    self.selected.push(key);
                }
                proof {
                    assert(Seq::<K>::empty().to_set() =~= Set::<K>::empty());
                    if found.is_none() {
                        Seq::<K>::empty().lemma_push_to_set_commute(key);
                        assert(Seq::<K>::empty().push(key) =~= self.selected@);
                    }
                    if keys_behave::<K>() && found.is_some() {
                        assert(old(self).keys().contains(key));
                    }
                }
                true
            },
            SelectionMode::Multi => {
                let found = position_of(&self.selected, &key);
                if found.is_some() {
                    remove_all(&mut self.selected, &key);
                    proof {
                        if keys_behave::<K>() {
                            assert(old(self).keys().contains(key));
                        }
                    }
                } else {
                    self.selected.push(key);
                    proof {
                        old(self).selected@.lemma_push_to_set_commute(key);
                    }
                }
                true
            },
        }
    }

    /// Check if a key is selected.
    pub fn is_selected(&self, key: &K) -> (r: bool)
        ensures
            keys_behave::<K>() ==> r == self.keys().contains(*key),
    {
        position_of(&self.selected, key).is_some()
    }

    /// Clear all selections.
    pub fn clear(&mut self)
        ensures
            final(self).mode == old(self).mode,
            final(self).keys() == Set::<K>::empty(),
            final(self).selected@.len() == 0,
            final(self).wf(),
    {
        self.selected = Vec::new();
        proof { assert(Seq::<K>::empty().to_set() =~= Set::<K>::empty()); }
    }

    /// Add a key to the selection, whatever the mode.
    pub fn insert(&mut self, key: K)
        ensures
            final(self).mode == old(self).mode,
            keys_behave::<K>() ==> final(self).keys() == old(self).keys().insert(key),
            keys_behave::<K>() && old(self).wf() ==> final(self).wf(),
    {
        if position_of(&self.selected, &key).is_none() {
            self.selected.push(key);
            proof { old(self).selected@.lemma_push_to_set_commute(key); }
        } else {
            proof {
                if keys_behave::<K>() {
                    assert(old(self).keys().contains(key));
                    assert(old(self).keys().insert(key) =~= old(self).keys());
                }
            }
        }
    }

    /// Get the single selected key (for Single mode); with several selected
    /// keys, the earliest selected one.
    pub fn get_single(&self) -> (r: Option<&K>)
        ensures
            r is None <==> self.keys().is_empty(),
            r matches Some(k) ==> self.keys().contains(*k) && *k == self.selected@[0],
    {
        if self.selected.len() == 0 {
            proof {
                assert(self.selected@ =~= Seq::<K>::empty());
                assert(Seq::<K>::empty().to_set() =~= Set::<K>::empty());
            }
            None
        } else {
            proof {
                assert(self.keys().contains(self.selected@[0]));
            }
            Some(&self.selected[0])
        }
    }

    /// Get all selected keys.
    pub fn get_all(&self) -> (r: Vec<&K>)
        ensures
            r@.unref() == self.selected@,
            r@.unref().to_set() == self.keys(),
            self.wf() ==> r@.unref().no_duplicates() && r@.len() == self.keys().len(),
    {
        let mut out: Vec<&K> = Vec::new();
        let mut i: usize = 0;
        while i < self.selected.len()
            invariant
                i <= self.selected@.len(),
                out@.len() == i,
                forall|j: int| 0 <= j < i ==> *out@[j] == self.selected@[j],
            decreases self.selected@.len() - i,
        {
            out.push(&self.selected[i]);
            i = i + 1;
        }
        assert(out@.unref() =~= self.selected@);
        proof {
            if self.wf() {
                self.selected@.unique_seq_to_set();
            }
        }
        out
    }
}

/// In multi-selection, toggling the same key twice leaves the selection as
/// it was.
pub proof fn law_multi_toggle_twice<K>(selected: Set<K>, key: K)
    ensures
        toggled(SelectionMode::Multi, toggled(SelectionMode::Multi, selected, key), key) == selected,
{
    if selected.contains(key) {
        assert(selected.remove(key).insert(key) =~= selected);
    } else {
        assert(selected.insert(key).remove(key) =~= selected);
    }
}

/// In single selection, at most one key is selected after any toggle.
pub proof fn law_single_selects_at_most_one<K>(selected: Set<K>, key: K)
    ensures
        toggled(SelectionMode::Single, selected, key).finite(),
        toggled(SelectionMode::Single, selected, key).len() <= 1,
{
    if !selected.contains(key) {
        assert(Set::<K>::empty().insert(key).len() == 1);
    }
}

/// With selection disabled, a toggle leaves the selection as it was.
pub proof fn law_disabled_toggle_keeps<K>(selected: Set<K>, key: K)
    ensures
        toggled(SelectionMode::Disabled, selected, key) == selected,
{
}

} // verus!
