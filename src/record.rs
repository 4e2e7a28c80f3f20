use vstd::prelude::*;

verus! {

/// One parsed log event. It is never changed once stored.
pub struct Record {
    /// Numeric event identifier.
    pub event_id: u64,
    /// The user the event names, if any.
    pub user: Option<String>,
    /// The full structured payload, as detail text.
    pub content: String,
    /// Which source the record came from.
    pub origin: usize,
}

/// The user of a record as a mathematical value; `None` stands for "absent".
pub open spec fn user_key(u: Option<String>) -> Option<Seq<char>> {
    match u {
        Some(s) => Some(s@),
        None => None,
    }
}

impl Record {
    pub fn new(event_id: u64, user: Option<String>, content: String, origin: usize) -> (r: Record)
        ensures
            r.event_id == event_id,
            r.user == user,
            r.content == content,
            r.origin == origin,
    {
        Record { event_id, user, content, origin }
    }

    /// A copy of this record's user.
    pub fn user_cloned(&self) -> (r: Option<String>)
        ensures
            user_key(r) == user_key(self.user),
    {
        match &self.user {
            Some(s) => Some(s.clone()),
            None => None,
        }
    }
}

/// All records loaded so far, in arrival order. Records are only appended, so
/// an index, once handed out, keeps naming the same record.
pub struct RecordStore {
    records: Vec<Record>,
}

impl View for RecordStore {
    type V = Seq<Record>;

    closed spec fn view(&self) -> Seq<Record> {
        self.records@
    }
}

impl RecordStore {
    pub fn new() -> (r: RecordStore)
        ensures
            r@ == Seq::<Record>::empty(),
    {
        RecordStore { records: Vec::new() }
    }

    /// Appends a record and returns the index it is stored under.
    pub fn append(&mut self, record: Record) -> (r: usize)
        ensures
            r == old(self)@.len(),
            final(self)@ == old(self)@.push(record),
    {
        let r = self.records.len();
        self.records.push(record);
        r
    }

    pub fn get(&self, index: usize) -> (r: &Record)
        requires
            index < self@.len(),
        ensures
            *r == self@[index as int],
    {
        &self.records[index]
    }

    pub fn len(&self) -> (r: usize)
        ensures
            r == self@.len(),
    {
        self.records.len()
    }
}

} // verus!
