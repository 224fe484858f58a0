//! Coordinating the updates of snap categories, so that one task at a time fetches the
//! categories of a snap and the others wait for it.
use vstd::prelude::*;

verus! {

/// The snaps whose categories are being updated, each with what the waiting tasks are
/// woken with (a notifier) once the update ends.
pub struct CategoryUpdates<N> {
    entries: Vec<(String, N)>,
}

/// What a task that needs a snap's categories does.
#[derive(Clone, Copy, Debug, PartialEq, Eq, Structural)]
pub enum CategoryStep {
    /// The snap already has categories: nothing to do.
    Skip,
    /// Another task is updating the snap: wait for its notifier.
    Wait,
    /// Update the snap's categories, then finish.
    Update,
}

/// The step of a task that needs `snap_id`'s categories, given whether the snap has some
/// already and the updates in progress.
pub open spec fn category_step<N>(updates: Map<Seq<char>, N>, snap_id: Seq<char>, has_categories: bool) -> CategoryStep {
    if has_categories {
        CategoryStep::Skip
    } else if updates.contains_key(snap_id) {
        CategoryStep::Wait
    } else {
        CategoryStep::Update
    }
}

/// The updates in progress after a task takes its step: it registers its notifier when it
/// is to update, and changes nothing else.
pub open spec fn updates_after<N>(updates: Map<Seq<char>, N>, snap_id: Seq<char>, has_categories: bool, notifier: N) -> Map<Seq<char>, N> {
    if category_step(updates, snap_id, has_categories) == CategoryStep::Update {
        updates.insert(snap_id, notifier)
    } else {
        updates
    }
}

impl<N> CategoryUpdates<N> {
    /// The snaps being updated, each with its notifier.
    pub closed spec fn view(&self) -> Map<Seq<char>, N> {
        Map::new(
            |k: Seq<char>| exists|i: int| 0 <= i < self.entries@.len() && self.entries@[i].0@ == k,
            |k: Seq<char>| self.entries@[choose|i: int| 0 <= i < self.entries@.len() && self.entries@[i].0@ == k].1,
        )
    }

    /// No snap is listed twice.
    pub closed spec fn well_formed(&self) -> bool {
        forall|i: int, j: int|
            0 <= i < j < self.entries@.len() ==> self.entries@[i].0@ != self.entries@[j].0@
    }

    /// No update in progress.
    pub fn new() -> (r: Self)
        ensures
            r.well_formed(),
            r.view() == Map::<Seq<char>, N>::empty(),
    {
        let r = CategoryUpdates { entries: Vec::new() };
        assert(r.view() =~= Map::<Seq<char>, N>::empty());
        r
    }

    fn find(&self, snap_id: &str) -> (r: Option<usize>)
        requires
            self.well_formed(),
        ensures
            r matches Some(i) ==> i < self.entries@.len() && self.entries@[i as int].0@ == snap_id@,
            r is None ==> forall|i: int| 0 <= i < self.entries@.len() ==> self.entries@[i].0@ != snap_id@,
    {
        let mut i: usize = 0;
        while i < self.entries.len()
            invariant
                i <= self.entries@.len(),
                forall|k: int| 0 <= k < i ==> self.entries@[k].0@ != snap_id@,
            decreases self.entries@.len() - i,
        {
            if string_equals(&self.entries[i].0, snap_id) {
                return Some(i);
            }
            i = i + 1;
        }
        None
    }

    proof fn lemma_view_at(&self, i: int)
        requires
            self.well_formed(),
            0 <= i < self.entries@.len(),
        ensures
            self.view().contains_key(self.entries@[i].0@),
            self.view()[self.entries@[i].0@] == self.entries@[i].1,
    {
        let k = self.entries@[i].0@;
        let j = choose|j: int| 0 <= j < self.entries@.len() && self.entries@[j].0@ == k;
        assert(j == i);
    }

    /// The notifier of the task that is updating `snap_id`'s categories, if one is: a
    /// caller that gets one waits on it instead of updating.
    pub fn in_progress(&self, snap_id: &str) -> (r: Option<&N>)
        requires
            self.well_formed(),
        ensures
            self.view().contains_key(snap_id@) <==> r is Some,
            r matches Some(n) ==> *n == self.view()[snap_id@],
    {
        match self.find(snap_id) {
            Some(i) => {
                proof {
                    self.lemma_view_at(i as int);
                }
                Some(&self.entries[i].1)
            },
            None => None,
        }
    }

    /// Records that the caller is now updating `snap_id`'s categories, with the notifier
    /// that will wake the tasks that come to wait.
    pub fn start(&mut self, snap_id: &str, notifier: N)
        requires
            old(self).well_formed(),
            !old(self).view().contains_key(snap_id@),
        ensures
            final(self).well_formed(),
            final(self).view() == old(self).view().insert(snap_id@, notifier),
    {
        let ghost before = self.entries@;
        self.entries.push((String::from_str(snap_id), notifier));
        proof {
            assert forall|i: int| 0 <= i < before.len() implies before[i].0@ != snap_id@ by {
                if before[i].0@ == snap_id@ {
                    assert(old(self).view().contains_key(snap_id@));
                }
            }
            assert forall|k: Seq<char>| #[trigger] self.view().contains_key(k) <==> old(self).view().insert(snap_id@, notifier).contains_key(k) by {
                if k == snap_id@ {
                    assert(self.entries@[before.len() as int].0@ == k);
                } else if old(self).view().contains_key(k) {
                    let j = choose|j: int| 0 <= j < before.len() && before[j].0@ == k;
                    assert(self.entries@[j].0@ == k);
                } else if self.view().contains_key(k) {
                    let j = choose|j: int| 0 <= j < self.entries@.len() && self.entries@[j].0@ == k;
                    assert(j < before.len());
                    assert(before[j].0@ == k);
                }
            }
            assert forall|k: Seq<char>| #[trigger] self.view().contains_key(k) implies self.view()[k] == old(self).view().insert(snap_id@, notifier)[k] by {
                let j = choose|j: int| 0 <= j < self.entries@.len() && self.entries@[j].0@ == k;
                self.lemma_view_at(j);
                if j < before.len() {
                    old(self).lemma_view_at(j);
                }
            }
            assert(self.view() =~= old(self).view().insert(snap_id@, notifier));
        }
    }

    /// The step of a task that needs `snap_id`'s categories, given whether the snap has
    /// some already: it skips when it has; it waits when another task is updating the
    /// snap; else it registers `notifier`, which it wakes the waiting tasks with when it
    /// finishes, and updates.
    pub fn begin(&mut self, snap_id: &str, has_categories: bool, notifier: N) -> (r: CategoryStep)
        requires
            old(self).well_formed(),
        ensures
            final(self).well_formed(),
            r == category_step(old(self).view(), snap_id@, has_categories),
            final(self).view() == updates_after(old(self).view(), snap_id@, has_categories, notifier),
    {
        if has_categories {
            return CategoryStep::Skip;
        }
        if self.in_progress(snap_id).is_some() {
            return CategoryStep::Wait;
        }
        self.start(snap_id, notifier);
        CategoryStep::Update
    }

    /// Records that the update of `snap_id`'s categories has ended, handing back its
    /// notifier, which the caller wakes the waiting tasks with.
    pub fn finish(&mut self, snap_id: &str) -> (r: Option<N>)
        requires
            old(self).well_formed(),
        ensures
            final(self).well_formed(),
            final(self).view() == old(self).view().remove(snap_id@),
            old(self).view().contains_key(snap_id@) <==> r is Some,
            r matches Some(n) ==> n == old(self).view()[snap_id@],
    {
        match self.find(snap_id) {
            Some(i) => {
                proof {
                    self.lemma_view_at(i as int);
                }
                let ghost before = self.entries@;
                let (_, notifier) = self.entries.remove(i);
                proof {
                    assert forall|a: int, b: int| 0 <= a < b < self.entries@.len() implies self.entries@[a].0@ != self.entries@[b].0@ by {
                        let a0 = if a < i { a } else { a + 1 };
                        let b0 = if b < i { b } else { b + 1 };
                        assert(self.entries@[a] == before[a0]);
                        assert(self.entries@[b] == before[b0]);
                    }
                    assert forall|k: Seq<char>| #[trigger] self.view().contains_key(k) <==> old(self).view().remove(snap_id@).contains_key(k) by {
                        if self.view().contains_key(k) {
                            let j = choose|j: int| 0 <= j < self.entries@.len() && self.entries@[j].0@ == k;
                            let j0 = if j < i { j } else { j + 1 };
                            assert(self.entries@[j] == before[j0]);
                            assert(old(self).view().contains_key(k));
                        }
                        if old(self).view().remove(snap_id@).contains_key(k) {
                            let j0 = choose|j: int| 0 <= j < before.len() && before[j].0@ == k;
                            assert(j0 != i);
                            let j = if j0 < i { j0 } else { j0 - 1 };
                            assert(self.entries@[j] == before[j0]);
                        }
                    }
                    assert forall|k: Seq<char>| #[trigger] self.view().contains_key(k) implies self.view()[k] == old(self).view().remove(snap_id@)[k] by {
                        let j = choose|j: int| 0 <= j < self.entries@.len() && self.entries@[j].0@ == k;
                        let j0 = if j < i { j } else { j + 1 };
                        assert(self.entries@[j] == before[j0]);
                        self.lemma_view_at(j);
                        old(self).lemma_view_at(j0);
                    }
                    assert(self.view() =~= old(self).view().remove(snap_id@));
                }
                Some(notifier)
            },
            None => {
                proof {
                    assert(self.view() =~= old(self).view().remove(snap_id@));
                    if old(self).view().contains_key(snap_id@) {
                        let j = choose|j: int| 0 <= j < self.entries@.len() && self.entries@[j].0@ == snap_id@;
                    }
                }
                None
            },
        }
    }
}

/// Whether two strings hold the same characters.
fn string_equals(a: &String, b: &str) -> (r: bool)
    ensures
        r == (a@ == b@),
{
    let n = a.as_str().unicode_len();
    let m = b.unicode_len();
    if n != m {
        return false;
    }
    let mut i: usize = 0;
    while i < n
        invariant
            n == a@.len(),
            m == b@.len(),
            n == m,
            i <= n,
            forall|k: int| 0 <= k < i ==> a@[k] == b@[k],
        decreases n - i,
    {
        if a.as_str().get_char(i) != b.get_char(i) {
            return false;
        }
        i = i + 1;
    }
    assert(a@ =~= b@);
    true
}

/// An update that has started is in progress until it finishes: while it runs, a second
/// task that asks for the same snap is told to wait; once it finishes, the next task that
/// asks is free to update; and the updates of other snaps are left as they were.
pub proof fn lemma_one_update_at_a_time<N>(updates: CategoryUpdates<N>, snap_id: Seq<char>, notifier: N, other: N)
    requires
        !updates.view().contains_key(snap_id),
    ensures
        category_step(updates.view(), snap_id, false) == CategoryStep::Update,
        category_step(updates_after(updates.view(), snap_id, false, notifier), snap_id, false) == CategoryStep::Wait,
        updates_after(updates_after(updates.view(), snap_id, false, notifier), snap_id, false, other)
            == updates_after(updates.view(), snap_id, false, notifier),
        category_step(updates_after(updates.view(), snap_id, false, notifier).remove(snap_id), snap_id, false)
            == CategoryStep::Update,
        updates_after(updates.view(), snap_id, false, notifier).remove(snap_id) == updates.view(),
{
    assert(updates_after(updates.view(), snap_id, false, notifier).remove(snap_id) =~= updates.view());
}

} // verus!
