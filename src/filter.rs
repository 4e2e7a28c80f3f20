use vstd::prelude::*;

use crate::record::{user_key, Record};

verus! {

/// The filter predicate set as four mathematical sets: an include set and an
/// exclude set for each category (event identifier, user).
pub struct FilterModel {
    pub include_ids: Set<u64>,
    pub exclude_ids: Set<u64>,
    pub include_users: Set<Option<Seq<char>>>,
    pub exclude_users: Set<Option<Seq<char>>>,
}

impl FilterModel {
    /// No restriction in any category.
    pub open spec fn empty() -> FilterModel {
        FilterModel {
            include_ids: Set::empty(),
            exclude_ids: Set::empty(),
            include_users: Set::empty(),
            exclude_users: Set::empty(),
        }
    }

    /// A value passes one category when the include set is empty or holds it,
    /// and the exclude set does not hold it.
    pub open spec fn passes_fields(self, id: u64, user: Option<Seq<char>>) -> bool {
        &&& (self.include_ids == Set::<u64>::empty() || self.include_ids.contains(id))
        &&& !self.exclude_ids.contains(id)
        &&& (self.include_users == Set::<Option<Seq<char>>>::empty() || self.include_users.contains(user))
        &&& !self.exclude_users.contains(user)
    }

    pub open spec fn passes(self, r: Record) -> bool {
        self.passes_fields(r.event_id, user_key(r.user))
    }

    /// Every set cleared, whatever it held before.
    pub open spec fn reset(self) -> FilterModel {
        FilterModel::empty()
    }

    pub open spec fn exclude_id(self, id: u64) -> FilterModel {
        FilterModel { include_ids: self.include_ids.remove(id), exclude_ids: self.exclude_ids.insert(id), ..self }
    }

    pub open spec fn include_id(self, id: u64) -> FilterModel {
        FilterModel { include_ids: self.include_ids.insert(id), exclude_ids: self.exclude_ids.remove(id), ..self }
    }

    pub open spec fn exclude_user(self, u: Option<Seq<char>>) -> FilterModel {
        FilterModel { include_users: self.include_users.remove(u), exclude_users: self.exclude_users.insert(u), ..self }
    }

    pub open spec fn include_user(self, u: Option<Seq<char>>) -> FilterModel {
        FilterModel { include_users: self.include_users.insert(u), exclude_users: self.exclude_users.remove(u), ..self }
    }
}

/// The set of event identifiers a list holds.
pub open spec fn id_set(s: Seq<u64>) -> Set<u64> {
    Set::new(|x: u64| s.contains(x))
}

/// The set of users a list holds.
pub open spec fn user_set(s: Seq<Option<String>>) -> Set<Option<Seq<char>>> {
    Set::new(|k: Option<Seq<char>>| exists|i: int| 0 <= i < s.len() && #[trigger] user_key(s[i]) == k)
}

proof fn lemma_id_set_empty(s: Seq<u64>)
    ensures
        (id_set(s) == Set::<u64>::empty()) == (s.len() == 0),
{
    if s.len() == 0 {
        assert(id_set(s) =~= Set::<u64>::empty());
    } else {
        assert(id_set(s).contains(s[0]));
    }
}

proof fn lemma_user_set_empty(s: Seq<Option<String>>)
    ensures
        (user_set(s) == Set::<Option<Seq<char>>>::empty()) == (s.len() == 0),
{
    if s.len() == 0 {
        assert(user_set(s) =~= Set::<Option<Seq<char>>>::empty());
    } else {
        assert(user_key(s[0]) == user_key(s[0]));
        assert(user_set(s).contains(user_key(s[0])));
    }
}

fn same_user(a: &Option<String>, b: &Option<String>) -> (r: bool)
    ensures
        r == (user_key(*a) == user_key(*b)),
{
    match (a, b) {
        (Some(x), Some(y)) => *x == *y,
        (None, None) => true,
        _ => false,
    }
}

fn contains_id(v: &Vec<u64>, x: u64) -> (r: bool)
    ensures
        r == id_set(v@).contains(x),
{
    let mut i: usize = 0;
    while i < v.len()
        invariant
            i <= v@.len(),
            forall|j: int| 0 <= j < i ==> v@[j] != x,
        decreases v@.len() - i,
    {
        if v[i] == x {
            assert(v@.contains(x) && v@[i as int] == x);
            return true;
        }
        i = i + 1;
    }
    false
}

fn contains_user(v: &Vec<Option<String>>, x: &Option<String>) -> (r: bool)
    ensures
        r == user_set(v@).contains(user_key(*x)),
{
    let mut i: usize = 0;
    while i < v.len()
        invariant
            i <= v@.len(),
            forall|j: int| 0 <= j < i ==> user_key(v@[j]) != user_key(*x),
        decreases v@.len() - i,
    {
        if same_user(&v[i], x) {
            return true;
        }
        i = i + 1;
    }
    false
}

/// Removes every copy of `x` from the list.
fn remove_id(v: &mut Vec<u64>, x: u64)
    ensures
        id_set(final(v)@) == id_set(old(v)@).remove(x),
{
    let mut kept: Vec<u64> = Vec::new();
    let mut i: usize = 0;
    while i < v.len()
        invariant
            i <= v@.len(),
            forall|j: int| 0 <= j < i && v@[j] != x ==> #[trigger] id_set(kept@).contains(v@[j]),
            forall|m: int| 0 <= m < kept@.len() ==> #[trigger] kept@[m] != x && v@.contains(kept@[m]),
        decreases v@.len() - i,
    {
        let y = v[i];
        let ghost before = kept@;
        if y != x {
            kept.push(y);
            proof {
                assert(kept@[kept@.len() - 1] == y);
                assert forall|j: int| 0 <= j < i && v@[j] != x implies #[trigger] id_set(kept@).contains(v@[j]) by {
                    assert(id_set(before).contains(v@[j]));
                    let m = choose|m: int| 0 <= m < before.len() && before[m] == v@[j];
                    assert(kept@[m] == v@[j]);
                }
                assert forall|m: int| 0 <= m < kept@.len() implies #[trigger] kept@[m] != x && v@.contains(kept@[m]) by {
                    if m < before.len() {
                        assert(kept@[m] == before[m]);
                    } else {
                        assert(v@[i as int] == y);
                    }
                }
            }
        }
        i = i + 1;
    }
    proof {
        assert forall|z: u64| id_set(kept@).contains(z) <==> id_set(v@).remove(x).contains(z) by {
            if id_set(kept@).contains(z) {
                let m = choose|m: int| 0 <= m < kept@.len() && kept@[m] == z;
                assert(kept@[m] != x && v@.contains(kept@[m]));
            }
            if id_set(v@).remove(x).contains(z) {
                let j = choose|j: int| 0 <= j < v@.len() && v@[j] == z;
                assert(id_set(kept@).contains(v@[j]));
            }
        }
    }
    *v = kept;
    assert(id_set(v@) =~= id_set(old(v)@).remove(x));
}

/// Removes every list entry that stands for the same user as `x`.
fn remove_user(v: &mut Vec<Option<String>>, x: &Option<String>)
    ensures
        user_set(final(v)@) == user_set(old(v)@).remove(user_key(*x)),
{
    let mut kept: Vec<Option<String>> = Vec::new();
    let mut i: usize = 0;
    let ghost k0 = user_key(*x);
    while i < v.len()
        invariant
            i <= v@.len(),
            k0 == user_key(*x),
            forall|j: int| 0 <= j < i && user_key(v@[j]) != k0 ==> #[trigger] user_set(kept@).contains(user_key(v@[j])),
            forall|m: int| 0 <= m < kept@.len() ==> #[trigger] user_key(kept@[m]) != k0 && user_set(v@).contains(user_key(kept@[m])),
        decreases v@.len() - i,
    {
        let same = same_user(&v[i], x);
        let ghost before = kept@;
        if !same {
            let y = match &v[i] {
                Some(s) => Some(s.clone()),
                None => None,
            };
            kept.push(y);
            proof {
                assert(user_key(kept@[kept@.len() - 1]) == user_key(v@[i as int]));
                assert forall|j: int| 0 <= j < i + 1 && user_key(v@[j]) != k0 implies #[trigger] user_set(kept@).contains(user_key(v@[j])) by {
                    if j < i {
                        assert(user_set(before).contains(user_key(v@[j])));
                        let m = choose|m: int| 0 <= m < before.len() && user_key(before[m]) == user_key(v@[j]);
                        assert(kept@[m] == before[m]);
                    } else {
                        assert(user_key(kept@[kept@.len() - 1]) == user_key(v@[j]));
                    }
                }
                assert forall|m: int| 0 <= m < kept@.len() implies #[trigger] user_key(kept@[m]) != k0 && user_set(v@).contains(user_key(kept@[m])) by {
                    if m < before.len() {
                        assert(kept@[m] == before[m]);
                    } else {
                        assert(user_key(v@[i as int]) == user_key(kept@[m]));
                    }
                }
            }
        }
        i = i + 1;
    }
    proof {
        assert forall|k: Option<Seq<char>>| user_set(kept@).contains(k) <==> user_set(v@).remove(k0).contains(k) by {
            if user_set(kept@).contains(k) {
                let m = choose|m: int| 0 <= m < kept@.len() && user_key(kept@[m]) == k;
                assert(user_key(kept@[m]) != k0 && user_set(v@).contains(user_key(kept@[m])));
            }
            if user_set(v@).remove(k0).contains(k) {
                let j = choose|j: int| 0 <= j < v@.len() && user_key(v@[j]) == k;
                assert(user_set(kept@).contains(user_key(v@[j])));
            }
        }
    }
    *v = kept;
    assert(user_set(v@) =~= user_set(old(v)@).remove(user_key(*x)));
}

/// The live filter: an include list and an exclude list per category.
pub struct FilterSet {
    include_ids: Vec<u64>,
    exclude_ids: Vec<u64>,
    include_users: Vec<Option<String>>,
    exclude_users: Vec<Option<String>>,
}

impl View for FilterSet {
    type V = FilterModel;

    closed spec fn view(&self) -> FilterModel {
        FilterModel {
            include_ids: id_set(self.include_ids@),
            exclude_ids: id_set(self.exclude_ids@),
            include_users: user_set(self.include_users@),
            exclude_users: user_set(self.exclude_users@),
        }
    }
}

impl FilterSet {
    pub fn new() -> (r: FilterSet)
        ensures
            r@ == FilterModel::empty(),
    {
        let r = FilterSet {
            include_ids: Vec::new(),
            exclude_ids: Vec::new(),
            include_users: Vec::new(),
            exclude_users: Vec::new(),
        };
        proof {
            lemma_id_set_empty(r.include_ids@);
            lemma_id_set_empty(r.exclude_ids@);
            lemma_user_set_empty(r.include_users@);
            lemma_user_set_empty(r.exclude_users@);
        }
        r
    }

    /// Excludes an event identifier; it leaves the include set if it was there.
    pub fn exclude_event_id(&mut self, id: u64)
        ensures
            final(self)@ == old(self)@.exclude_id(id),
    {
        remove_id(&mut self.include_ids, id);
        if !contains_id(&self.exclude_ids, id) {
            let ghost before = self.exclude_ids@;
            self.exclude_ids.push(id);
            proof { lemma_id_set_push(before, id); }
        }
        assert(id_set(self.exclude_ids@) =~= id_set(old(self).exclude_ids@).insert(id));
    }

    /// Includes an event identifier; it leaves the exclude set if it was there.
    pub fn include_event_id(&mut self, id: u64)
        ensures
            final(self)@ == old(self)@.include_id(id),
    {
        remove_id(&mut self.exclude_ids, id);
        if !contains_id(&self.include_ids, id) {
            let ghost before = self.include_ids@;
            self.include_ids.push(id);
            proof { lemma_id_set_push(before, id); }
        }
        assert(id_set(self.include_ids@) =~= id_set(old(self).include_ids@).insert(id));
    }

    /// Excludes a user (`None` excludes the records without one); it leaves the
    /// include set if it was there.
    pub fn exclude_user(&mut self, user: Option<String>)
        ensures
            final(self)@ == old(self)@.exclude_user(user_key(user)),
    {
        remove_user(&mut self.include_users, &user);
        if !contains_user(&self.exclude_users, &user) {
            let ghost before = self.exclude_users@;
            self.exclude_users.push(user);
            proof { lemma_user_set_push(before, user); }
        }
        assert(user_set(self.exclude_users@) =~= user_set(old(self).exclude_users@).insert(user_key(user)));
    }

    /// Includes a user; it leaves the exclude set if it was there.
    pub fn include_user(&mut self, user: Option<String>)
        ensures
            final(self)@ == old(self)@.include_user(user_key(user)),
    {
        remove_user(&mut self.exclude_users, &user);
        if !contains_user(&self.include_users, &user) {
            let ghost before = self.include_users@;
            self.include_users.push(user);
            proof { lemma_user_set_push(before, user); }
        }
        assert(user_set(self.include_users@) =~= user_set(old(self).include_users@).insert(user_key(user)));
    }

    /// Clears every include and exclude set.
    pub fn reset(&mut self)
        ensures
            final(self)@ == old(self)@.reset(),
    {
        self.include_ids.clear();
        self.exclude_ids.clear();
        self.include_users.clear();
        self.exclude_users.clear();
        proof {
            lemma_id_set_empty(self.include_ids@);
            lemma_id_set_empty(self.exclude_ids@);
            lemma_user_set_empty(self.include_users@);
            lemma_user_set_empty(self.exclude_users@);
        }
    }

    /// Whether a record passes the filter; it changes nothing.
    pub fn evaluate(&self, record: &Record) -> (r: bool)
        ensures
            r == self@.passes(*record),
    {
        proof {
            lemma_id_set_empty(self.include_ids@);
            lemma_user_set_empty(self.include_users@);
        }
        (self.include_ids.len() == 0 || contains_id(&self.include_ids, record.event_id))
            && !contains_id(&self.exclude_ids, record.event_id)
            && (self.include_users.len() == 0 || contains_user(&self.include_users, &record.user))
            && !contains_user(&self.exclude_users, &record.user)
    }
}

proof fn lemma_id_set_push(s: Seq<u64>, x: u64)
    ensures
        id_set(s.push(x)) == id_set(s).insert(x),
{
    let t = s.push(x);
    assert forall|y: u64| id_set(t).contains(y) <==> id_set(s).insert(x).contains(y) by {
        if t.contains(y) {
            let j = choose|j: int| 0 <= j < t.len() && t[j] == y;
            if j < s.len() {
                assert(t[j] == s[j]);
            }
        }
        if s.contains(y) {
            let j = choose|j: int| 0 <= j < s.len() && s[j] == y;
            assert(t[j] == s[j]);
        }
        if y == x {
            assert(t[s.len() as int] == x);
        }
    }
    assert(id_set(t) =~= id_set(s).insert(x));
}

proof fn lemma_user_set_push(s: Seq<Option<String>>, u: Option<String>)
    ensures
        user_set(s.push(u)) == user_set(s).insert(user_key(u)),
{
    let t = s.push(u);
    assert forall|k: Option<Seq<char>>| user_set(t).contains(k) <==> user_set(s).insert(user_key(u)).contains(k) by {
        if user_set(t).contains(k) {
            let j = choose|j: int| 0 <= j < t.len() && user_key(t[j]) == k;
            if j < s.len() {
                assert(t[j] == s[j]);
            }
        }
        if user_set(s).contains(k) {
            let j = choose|j: int| 0 <= j < s.len() && user_key(s[j]) == k;
            assert(t[j] == s[j]);
        }
        if k == user_key(u) {
            assert(t[s.len() as int] == u);
        }
    }
    assert(user_set(t) =~= user_set(s).insert(user_key(u)));
}

/// A record whose value is in its category's exclude set never passes, nor
/// one whose value is missing from a non-empty include set of its category.
pub proof fn lemma_filter_composition(m: FilterModel, r: Record)
    ensures
        m.exclude_ids.contains(r.event_id) ==> !m.passes(r),
        m.exclude_users.contains(user_key(r.user)) ==> !m.passes(r),
        m.include_ids != Set::<u64>::empty() && !m.include_ids.contains(r.event_id) ==> !m.passes(r),
        m.include_users != Set::<Option<Seq<char>>>::empty() && !m.include_users.contains(user_key(r.user))
            ==> !m.passes(r),
{
}

/// Excluding a value takes it out of its category's include set, and including
/// a value takes it out of the exclude set.
pub proof fn lemma_mutual_exclusivity(m: FilterModel, id: u64, u: Option<Seq<char>>)
    ensures
        !m.exclude_id(id).include_ids.contains(id),
        !m.include_id(id).exclude_ids.contains(id),
        !m.exclude_user(u).include_users.contains(u),
        !m.include_user(u).exclude_users.contains(u),
{
}

/// After a reset every record passes, and a second reset changes nothing.
pub proof fn lemma_reset_idempotent(m: FilterModel, r: Record)
    ensures
        m.reset().passes(r),
        m.reset().reset() == m.reset(),
{
}

} // verus!
