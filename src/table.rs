use vstd::prelude::*;

use crate::filter::{FilterModel, FilterSet};
use crate::record::{user_key, Record, RecordStore};

verus! {

/// The indices among the first `n` records that pass the filter, in store order.
pub open spec fn view_of(records: Seq<Record>, m: FilterModel, n: nat) -> Seq<usize>
    decreases n,
{
    if n == 0 {
        Seq::empty()
    } else {
        let before = view_of(records, m, (n - 1) as nat);
        if m.passes(records[n - 1]) {
            before.push((n - 1) as usize)
        } else {
            before
        }
    }
}

/// Every index of the view is below `n`, and the indices increase strictly.
pub proof fn lemma_view_of_sorted(records: Seq<Record>, m: FilterModel, n: nat)
    requires
        n <= records.len() <= usize::MAX + 1,
    ensures
        forall|k: int| 0 <= k < view_of(records, m, n).len() ==> #[trigger] view_of(records, m, n)[k] < n,
        forall|j: int, k: int|
            0 <= j < k < view_of(records, m, n).len() ==> view_of(records, m, n)[j] < view_of(records, m, n)[k],
    decreases n,
{
    if n > 0 {
        let p = (n - 1) as nat;
        lemma_view_of_sorted(records, m, p);
        let before = view_of(records, m, p);
        let after = view_of(records, m, n);
        if m.passes(records[p as int]) {
            assert forall|k: int| 0 <= k < after.len() implies #[trigger] after[k] < n by {
                if k < before.len() {
                    assert(after[k] == before[k]);
                }
            }
            assert forall|j: int, k: int| 0 <= j < k < after.len() implies after[j] < after[k] by {
                assert(after[j] == before[j]);
                if k < before.len() {
                    assert(after[k] == before[k]);
                } else {
                    assert(before[j] < p);
                }
            }
        }
    }
}

/// The view holds exactly the indices below `n` of the records that pass.
pub proof fn lemma_view_of_members(records: Seq<Record>, m: FilterModel, n: nat)
    requires
        n <= records.len() <= usize::MAX + 1,
    ensures
        forall|i: usize| view_of(records, m, n).contains(i) <==> (i < n && m.passes(records[i as int])),
    decreases n,
{
    if n > 0 {
        let p = (n - 1) as nat;
        lemma_view_of_members(records, m, p);
        lemma_view_of_sorted(records, m, p);
        let before = view_of(records, m, p);
        assert forall|i: usize| view_of(records, m, n).contains(i) <==> (i < n && m.passes(records[i as int])) by {
            if m.passes(records[p as int]) {
                let after = before.push(p as usize);
                if after.contains(i) {
                    let k = choose|k: int| 0 <= k < after.len() && after[k] == i;
                    if k < before.len() {
                        assert(before[k] == after[k]);
                    }
                }
                if before.contains(i) {
                    let k = choose|k: int| 0 <= k < before.len() && before[k] == i;
                    assert(after[k] == i);
                }
                if i == p {
                    assert(after[before.len() as int] == i);
                }
            } else {
                if before.contains(i) {
                    let k = choose|k: int| 0 <= k < before.len() && before[k] == i;
                    assert(before[k] < p);
                }
            }
        }
    } else {
        assert forall|i: usize| view_of(records, m, n).contains(i) <==> (i < n && m.passes(records[i as int])) by {
        }
    }
}

/// The view of the first `n` records depends on those records alone.
pub proof fn lemma_view_of_prefix(a: Seq<Record>, b: Seq<Record>, m: FilterModel, n: nat)
    requires
        n <= a.len(),
        n <= b.len(),
        forall|i: int| 0 <= i < n ==> a[i] == b[i],
    ensures
        view_of(a, m, n) == view_of(b, m, n),
    decreases n,
{
    if n > 0 {
        lemma_view_of_prefix(a, b, m, (n - 1) as nat);
    }
}

/// Appending records under an unchanged filter only extends the view: the old
/// view stays as its prefix, and each index after it names a new record that
/// passes.
pub proof fn lemma_view_extends(old_records: Seq<Record>, added: Seq<Record>, m: FilterModel)
    requires
        old_records.len() + added.len() <= usize::MAX + 1,
    ensures
        ({
            let all = old_records + added;
            let before = view_of(old_records, m, old_records.len());
            let after = view_of(all, m, all.len());
            &&& before.len() <= after.len()
            &&& after.subrange(0, before.len() as int) == before
            &&& forall|k: int|
                before.len() <= k < after.len() ==> old_records.len() <= #[trigger] after[k] < all.len()
                    && m.passes(all[after[k] as int])
        }),
{
    let all = old_records + added;
    lemma_view_of_prefix(old_records, all, m, old_records.len());
    lemma_view_extends_to(all, m, old_records.len(), all.len());
}

proof fn lemma_view_extends_to(all: Seq<Record>, m: FilterModel, n0: nat, n: nat)
    requires
        n0 <= n <= all.len() <= usize::MAX + 1,
    ensures
        ({
            let before = view_of(all, m, n0);
            let after = view_of(all, m, n);
            &&& before.len() <= after.len()
            &&& after.subrange(0, before.len() as int) == before
            &&& forall|k: int|
                before.len() <= k < after.len() ==> n0 <= #[trigger] after[k] < n && m.passes(all[after[k] as int])
        }),
    decreases n,
{
    let before = view_of(all, m, n0);
    if n > n0 {
        let p = (n - 1) as nat;
        lemma_view_extends_to(all, m, n0, p);
        let mid = view_of(all, m, p);
        let after = view_of(all, m, n);
        if m.passes(all[p as int]) {
            assert(after.subrange(0, before.len() as int) =~= mid.subrange(0, before.len() as int));
            assert forall|k: int| before.len() <= k < after.len() implies n0 <= #[trigger] after[k] < n && m.passes(all[after[k] as int]) by {
                if k < mid.len() {
                    assert(after[k] == mid[k]);
                }
            }
        }
    } else {
        assert(before.subrange(0, before.len() as int) =~= before);
    }
}

/// What a table stands for: the records, the filter, and the view.
pub struct TableModel {
    pub records: Seq<Record>,
    pub filter: FilterModel,
    pub view: Seq<usize>,
}

/// The records, the live filter, and the view that the filter leaves of them.
pub struct EventTable {
    store: RecordStore,
    filter: FilterSet,
    view: Vec<usize>,
}

impl View for EventTable {
    type V = TableModel;

    closed spec fn view(&self) -> TableModel {
        TableModel { records: self.store@, filter: self.filter@, view: self.view@ }
    }
}

impl TableModel {
    /// The view is the one the filter leaves of all the records.
    pub open spec fn wf(self) -> bool {
        &&& self.records.len() <= usize::MAX
        &&& self.view == view_of(self.records, self.filter, self.records.len())
    }
}

impl EventTable {
    pub open spec fn wf(&self) -> bool {
        self@.wf()
    }

    pub fn new() -> (r: EventTable)
        ensures
            r.wf(),
            r@.records == Seq::<Record>::empty(),
            r@.filter == FilterModel::empty(),
    {
        let r = EventTable { store: RecordStore::new(), filter: FilterSet::new(), view: Vec::new() };
        assert(r.view@ =~= view_of(r.store@, r.filter@, 0));
        r
    }

    /// Number of records in the view.
    pub fn len(&self) -> (r: usize)
        ensures
            r == self@.view.len(),
    {
        self.view.len()
    }

    pub fn is_empty(&self) -> (r: bool)
        ensures
            r == (self@.view.len() == 0),
    {
        self.view.len() == 0
    }

    /// Number of records loaded, whether they pass or not.
    pub fn record_count(&self) -> (r: usize)
        ensures
            r == self@.records.len(),
    {
        self.store.len()
    }

    /// The store index behind a row of the view.
    pub fn store_index(&self, row: usize) -> (r: usize)
        requires
            self.wf(),
            row < self@.view.len(),
        ensures
            r == self@.view[row as int],
            r < self@.records.len(),
    {
        proof { lemma_view_of_sorted(self@.records, self@.filter, self@.records.len()); }
        self.view[row]
    }

    /// The record behind a row of the view.
    pub fn record(&self, row: usize) -> (r: &Record)
        requires
            self.wf(),
            row < self@.view.len(),
        ensures
            *r == self@.records[self@.view[row as int] as int],
    {
        let i = self.store_index(row);
        self.store.get(i)
    }

    /// The detail text of the record behind a row, if the row exists.
    pub fn content(&self, row: usize) -> (r: Option<&String>)
        requires
            self.wf(),
        ensures
            row < self@.view.len() ==> r == Some(&self@.records[self@.view[row as int] as int].content),
            row >= self@.view.len() ==> r.is_none(),
    {
        if row < self.view.len() {
            Some(&self.record(row).content)
        } else {
            None
        }
    }

    /// Appends a record and, with the filter unchanged, extends the view by its
    /// index if it passes. Returns the record's store index.
    pub fn append(&mut self, record: Record) -> (r: usize)
        requires
            old(self).wf(),
            old(self)@.records.len() < usize::MAX,
        ensures
            final(self).wf(),
            r == old(self)@.records.len(),
            final(self)@.records == old(self)@.records.push(record),
            final(self)@.filter == old(self)@.filter,
            final(self)@.view == if old(self)@.filter.passes(record) {
                old(self)@.view.push(r)
            } else {
                old(self)@.view
            },
    {
        let passes = self.filter.evaluate(&record);
        let r = self.store.append(record);
        if passes {
            self.view.push(r);
        }
        proof {
            lemma_view_of_prefix(old(self)@.records, self@.records, self@.filter, old(self)@.records.len());
        }
        r
    }

    /// Rescans all records against the current filter.
    fn rebuild(&mut self)
        requires
            old(self)@.records.len() <= usize::MAX,
        ensures
            final(self).wf(),
            final(self)@.records == old(self)@.records,
            final(self)@.filter == old(self)@.filter,
    {
        let mut view: Vec<usize> = Vec::new();
        let n = self.store.len();
        let mut i: usize = 0;
        while i < n
            invariant
                n == self@.records.len(),
                i <= n,
                view@ == view_of(self@.records, self@.filter, i as nat),
            decreases n - i,
        {
            if self.filter.evaluate(self.store.get(i)) {
                view.push(i);
            }
            i = i + 1;
        }
        self.view = view;
    }

    /// Excludes an event identifier and rescans.
    pub fn exclude_event_id(&mut self, id: u64)
        requires
            old(self).wf(),
        ensures
            final(self).wf(),
            final(self)@.records == old(self)@.records,
            final(self)@.filter == old(self)@.filter.exclude_id(id),
    {
        self.filter.exclude_event_id(id);
        self.rebuild();
    }

    /// Includes an event identifier and rescans.
    pub fn include_event_id(&mut self, id: u64)
        requires
            old(self).wf(),
        ensures
            final(self).wf(),
            final(self)@.records == old(self)@.records,
            final(self)@.filter == old(self)@.filter.include_id(id),
    {
        self.filter.include_event_id(id);
        self.rebuild();
    }

    /// Excludes a user and rescans.
    pub fn exclude_user(&mut self, user: Option<String>)
        requires
            old(self).wf(),
        ensures
            final(self).wf(),
            final(self)@.records == old(self)@.records,
            final(self)@.filter == old(self)@.filter.exclude_user(user_key(user)),
    {
        self.filter.exclude_user(user);
        self.rebuild();
    }

    /// Includes a user and rescans.
    pub fn include_user(&mut self, user: Option<String>)
        requires
            old(self).wf(),
        ensures
            final(self).wf(),
            final(self)@.records == old(self)@.records,
            final(self)@.filter == old(self)@.filter.include_user(user_key(user)),
    {
        self.filter.include_user(user);
        self.rebuild();
    }

    /// Clears the filter; the view becomes every record.
    pub fn reset_filter(&mut self)
        requires
            old(self).wf(),
        ensures
            final(self).wf(),
            final(self)@.records == old(self)@.records,
            final(self)@.filter == old(self)@.filter.reset(),
    {
        self.filter.reset();
        self.rebuild();
    }

    /// Whether a record passes the current filter.
    pub fn evaluate(&self, record: &Record) -> (r: bool)
        ensures
            r == self@.filter.passes(*record),
    {
        self.filter.evaluate(record)
    }
}

} // verus!
