//! Canvas object selection management
//!
//! Handles selection state, selection modes, and selection queries. Objects are
//! identified by the 128-bit value of their id.
use vstd::prelude::*;

verus! {

/// Selection mode
#[derive(Clone, Copy, Debug, PartialEq, Eq, Structural)]
pub enum SelectionMode {
    /// Single object selection (default)
    Single,
    /// Multiple object selection
    Multiple,
}

/// `s` with every occurrence of `id` taken out, the rest in their order.
pub open spec fn without(s: Seq<u128>, id: u128) -> Seq<u128>
    decreases s.len(),
{
    if s.len() == 0 {
        s
    } else if s.last() == id {
        without(s.drop_last(), id)
    } else {
        without(s.drop_last(), id).push(s.last())
    }
}

/// `s` with `id` appended, unless it is already there.
pub open spec fn with_added(s: Seq<u128>, id: u128) -> Seq<u128> {
    if s.contains(id) {
        s
    } else {
        s.push(id)
    }
}

/// `s` with `id` taken out if it is there, and appended if it is not.
pub open spec fn toggled(s: Seq<u128>, id: u128) -> Seq<u128> {
    if s.contains(id) {
        without(s, id)
    } else {
        s.push(id)
    }
}

/// The ids left after removing `id` are exactly the other ids of `s`.
pub proof fn lemma_without_contains(s: Seq<u128>, id: u128)
    ensures
        forall|x: u128| #[trigger] without(s, id).contains(x) <==> (s.contains(x) && x != id),
        s.no_duplicates() ==> without(s, id).no_duplicates(),
    decreases s.len(),
{
    if s.len() > 0 {
        let t = s.drop_last();
        lemma_without_contains(t, id);
        assert forall|x: u128| #[trigger] s.contains(x) <==> (t.contains(x) || x == s.last()) by {
            if s.contains(x) {
                let k = choose|k: int| 0 <= k < s.len() && s[k] == x;
                if k < s.len() - 1 {
                    assert(t[k] == x);
                }
            }
            if t.contains(x) {
                let k = choose|k: int| 0 <= k < t.len() && t[k] == x;
                assert(s[k] == x);
            }
            if x == s.last() {
                assert(s[s.len() - 1] == x);
            }
        }
        if s.no_duplicates() {
            assert(t.no_duplicates());
            assert(!t.contains(s.last())) by {
                if t.contains(s.last()) {
                    let k = choose|k: int| 0 <= k < t.len() && t[k] == s.last();
                    assert(s[k] == s[s.len() - 1]);
                }
            }
        }
        let w = without(t, id);
        if s.last() != id {
            assert forall|x: u128| #[trigger] w.push(s.last()).contains(x) <==> (w.contains(x)
                || x == s.last()) by {
                if w.push(s.last()).contains(x) {
                    let k = choose|k: int| 0 <= k < w.len() + 1 && w.push(s.last())[k] == x;
                    if k < w.len() {
                        assert(w[k] == x);
                    }
                }
                if w.contains(x) {
                    let k = choose|k: int| 0 <= k < w.len() && w[k] == x;
                    assert(w.push(s.last())[k] == x);
                }
                if x == s.last() {
                    assert(w.push(s.last())[w.len() as int] == x);
                }
            }
            if s.no_duplicates() {
                let wp = w.push(s.last());
                assert forall|a: int, b: int|
                    0 <= a < wp.len() && 0 <= b < wp.len() && a != b implies wp[a] != wp[b] by {
                    if a == w.len() {
                        assert(w.contains(wp[b]));
                    } else if b == w.len() {
                        assert(w.contains(wp[a]));
                    }
                }
            }
        }
    }
}

/// Toggling the same id twice selects exactly the ids that were selected before; when the
/// id was not selected, the order is the same too.
pub proof fn lemma_toggle_twice(s: Seq<u128>, id: u128)
    requires
        s.no_duplicates(),
    ensures
        forall|x: u128| #[trigger] toggled(toggled(s, id), id).contains(x) == s.contains(x),
        !s.contains(id) ==> toggled(toggled(s, id), id) == s,
{
    lemma_without_contains(s, id);
    if s.contains(id) {
        let w = without(s, id);
        assert(!w.contains(id));
        assert forall|x: u128| #[trigger] w.push(id).contains(x) == s.contains(x) by {
            if w.push(id).contains(x) {
                let k = choose|k: int| 0 <= k < w.len() + 1 && w.push(id)[k] == x;
                if k < w.len() {
                    assert(w[k] == x);
                    assert(without(s, id).contains(x));
                }
            }
            if s.contains(x) && x != id {
                assert(without(s, id).contains(x));
                let k = choose|k: int| 0 <= k < w.len() && w[k] == x;
                assert(w.push(id)[k] == x);
            }
            if x == id {
                assert(w.push(id)[w.len() as int] == x);
            }
        }
    } else {
        let p = s.push(id);
        assert(p.contains(id)) by {
            assert(p[s.len() as int] == id);
        }
        assert(p.drop_last() =~= s);
        assert(without(p, id) == without(s, id));
        lemma_without_is_identity(s, id);
    }
}

/// Taking out an id that is not there changes nothing.
pub proof fn lemma_without_is_identity(s: Seq<u128>, id: u128)
    requires
        !s.contains(id),
    ensures
        without(s, id) == s,
    decreases s.len(),
{
    if s.len() > 0 {
        let t = s.drop_last();
        assert(!t.contains(id)) by {
            if t.contains(id) {
                let k = choose|k: int| 0 <= k < t.len() && t[k] == id;
                assert(s[k] == id);
            }
        }
        assert(s.last() != id) by {
            assert(s[s.len() - 1] == s.last());
        }
        lemma_without_is_identity(t, id);
        assert(t.push(s.last()) =~= s);
    }
}

/// Adding an id a second time changes nothing.
pub proof fn lemma_add_is_idempotent(s: Seq<u128>, id: u128)
    ensures
        with_added(with_added(s, id), id) == with_added(s, id),
        with_added(s, id).contains(id),
{
    if !s.contains(id) {
        assert(s.push(id)[s.len() as int] == id);
    }
}

/// Selection state manager. No id is ever selected twice.
pub struct SelectionState {
    selected: Vec<u128>,
    mode: SelectionMode,
}

impl SelectionState {
    /// No id occurs twice in the selection.
    #[verifier::type_invariant]
    spec fn no_repeats(self) -> bool {
        self.selected@.no_duplicates()
    }

    /// The selected ids, in the order they were selected.
    pub closed spec fn view(&self) -> Seq<u128> {
        self.selected@
    }

    /// The current selection mode.
    pub closed spec fn spec_mode(&self) -> SelectionMode {
        self.mode
    }

    /// Create a new selection state
    pub fn new() -> (res: Self)
        ensures
            res@ == Seq::<u128>::empty(),
            res.spec_mode() == SelectionMode::Single,
            res@.no_duplicates(),
    {
        SelectionState { selected: Vec::new(), mode: SelectionMode::Single }
    }

    /// Whether `object_id` is among the selected ids.
    fn position(&self, object_id: u128) -> (res: Option<usize>)
        ensures
            match res {
                Some(i) => i < self@.len() && self@[i as int] == object_id,
                None => !self@.contains(object_id),
            },
    {
        let n = self.selected.len();
        for i in 0..n
            invariant
                n == self.selected@.len(),
                forall|j: int| 0 <= j < i ==> self.selected@[j] != object_id,
        {
            if self.selected[i] == object_id {
                return Some(i);
            }
        }
        None
    }

    /// Appends `object_id` unless it is selected already.
    fn push_new(&mut self, object_id: u128)
        ensures
            final(self)@ == with_added(old(self)@, object_id),
            final(self).spec_mode() == old(self).spec_mode(),
    {
        proof {
            use_type_invariant(&*self);
        }
        if self.position(object_id).is_none() {
            let mut selected: Vec<u128> = Vec::new();
            std::mem::swap(&mut selected, &mut self.selected);
            selected.push(object_id);
            proof {
                assert forall|i: int, j: int|
                    0 <= i < selected@.len() && 0 <= j < selected@.len() && i != j implies
                    selected@[i] != selected@[j] by {
                    if i == selected@.len() - 1 {
                        assert(old(self)@[j] == selected@[j]);
                    } else if j == selected@.len() - 1 {
                        assert(old(self)@[i] == selected@[i]);
                    }
                }
            }
            self.selected = selected;
        }
    }

    /// Select a single object
    pub fn select(&mut self, object_id: u128)
        ensures
            final(self)@ == if old(self).spec_mode() == SelectionMode::Single {
                seq![object_id]
            } else {
                with_added(old(self)@, object_id)
            },
            final(self).spec_mode() == old(self).spec_mode(),
            final(self)@.no_duplicates(),
    {
        proof {
            use_type_invariant(&*self);
        }
        if self.mode == SelectionMode::Single {
            self.clear();
        }
        self.push_new(object_id);
        proof {
            if old(self).spec_mode() == SelectionMode::Single {
                assert(Seq::<u128>::empty().push(object_id) =~= seq![object_id]);
            }
        }
        proof {
            use_type_invariant(&*self);
        }
    }

    /// Add object to selection
    pub fn add(&mut self, object_id: u128)
        ensures
            final(self)@ == with_added(old(self)@, object_id),
            final(self).spec_mode() == old(self).spec_mode(),
            final(self)@.no_duplicates(),
    {
        proof {
            use_type_invariant(&*self);
        }
        self.push_new(object_id);
        proof {
            use_type_invariant(&*self);
        }
    }

    /// Remove object from selection
    pub fn remove(&mut self, object_id: u128)
        ensures
            final(self)@ == without(old(self)@, object_id),
            final(self).spec_mode() == old(self).spec_mode(),
            final(self)@.no_duplicates(),
    {
        proof {
            use_type_invariant(&*self);
        }
        let ghost s = self@;
        let mut kept: Vec<u128> = Vec::new();
        let n = self.selected.len();
        for i in 0..n
            invariant
                n == s.len(),
                s == self.selected@,
                s.no_duplicates(),
                kept@ == without(s.take(i as int), object_id),
                kept@.no_duplicates(),
        {
            let x = self.selected[i];
            proof {
                assert(s.take(i + 1).drop_last() =~= s.take(i as int));
                assert(s.take(i + 1).last() == x);
                lemma_without_contains(s.take(i as int), object_id);
            }
            if x != object_id {
                proof {
                    assert(!s.take(i as int).contains(x)) by {
                        if s.take(i as int).contains(x) {
                            let k = choose|k: int| 0 <= k < i && s.take(i as int)[k] == x;
                            assert(s[k] == s[i as int]);
                        }
                    }
                    assert forall|a: int, b: int|
                        0 <= a < kept@.len() + 1 && 0 <= b < kept@.len() + 1 && a != b implies
                        kept@.push(x)[a] != kept@.push(x)[b] by {
                        if a == kept@.len() {
                            assert(kept@.contains(kept@[b]));
                        } else if b == kept@.len() {
                            assert(kept@.contains(kept@[a]));
                        }
                    }
                }
                kept.push(x);
            }
        }
        proof {
            assert(s.take(n as int) =~= s);
        }
        self.selected = kept;
        proof {
            use_type_invariant(&*self);
        }
    }

    /// Toggle object selection
    pub fn toggle(&mut self, object_id: u128)
        ensures
            final(self)@ == toggled(old(self)@, object_id),
            final(self).spec_mode() == old(self).spec_mode(),
            final(self)@.no_duplicates(),
    {
        proof {
            use_type_invariant(&*self);
        }
        if self.position(object_id).is_some() {
            self.remove(object_id);
        } else {
            self.push_new(object_id);
        }
        proof {
            use_type_invariant(&*self);
        }
    }

    /// Clear all selections
    pub fn clear(&mut self)
        ensures
            final(self)@ == Seq::<u128>::empty(),
            final(self).spec_mode() == old(self).spec_mode(),
            final(self)@.no_duplicates(),
    {
        proof {
            use_type_invariant(&*self);
        }
        self.selected = Vec::new();
        proof {
            use_type_invariant(&*self);
        }
    }

    /// Check if object is selected
    pub fn is_selected(&self, object_id: u128) -> (res: bool)
        ensures
            res == self@.contains(object_id),
    {
        self.position(object_id).is_some()
    }

    /// Get all selected object IDs
    pub fn selected(&self) -> (res: Vec<u128>)
        ensures
            res@ == self@,
            res@.no_duplicates(),
    {
        proof {
            use_type_invariant(self);
        }
        self.selected.clone()
    }

    /// Get count of selected objects
    pub fn count(&self) -> (res: usize)
        ensures
            res == self@.len(),
    {
        self.selected.len()
    }

    /// Check if any objects are selected
    pub fn has_selection(&self) -> (res: bool)
        ensures
            res == (self@.len() > 0),
    {
        self.selected.len() > 0
    }

    /// Set selection mode
    pub fn set_mode(&mut self, mode: SelectionMode)
        ensures
            final(self)@ == old(self)@,
            final(self).spec_mode() == mode,
            final(self)@.no_duplicates(),
    {
        proof {
            use_type_invariant(&*self);
        }
        self.mode = mode;
        proof {
            use_type_invariant(&*self);
        }
    }

    /// Get current selection mode
    pub fn mode(&self) -> (res: SelectionMode)
        ensures
            res == self.spec_mode(),
    {
        self.mode
    }
}

impl Default for SelectionState {
    /// An empty selection in single mode, as `new` makes it.
    fn default() -> (res: Self)
        ensures
            res@ == Seq::<u128>::empty(),
            res.spec_mode() == SelectionMode::Single,
    {
        Self::new()
    }
}

impl Clone for SelectionState {
    fn clone(&self) -> (res: Self)
        ensures
            res@ == self@,
            res.spec_mode() == self.spec_mode(),
    {
        proof {
            use_type_invariant(self);
        }
        SelectionState { selected: self.selected.clone(), mode: self.mode }
    }
}

} // verus!
