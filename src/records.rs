use vstd::prelude::*;

use crate::{Errors, Record};

verus! {

/// Some reading of `s` has the key `t`.
pub open spec fn has_time(s: Seq<Record>, t: Seq<char>) -> bool {
    exists|i: int| 0 <= i < s.len() && #[trigger] s[i].time@ == t
}

/// `i` is the position of the first reading of `s` with the key `t`.
pub open spec fn is_first_time(s: Seq<Record>, t: Seq<char>, i: int) -> bool {
    &&& 0 <= i < s.len()
    &&& s[i].time@ == t
    &&& forall|j: int| 0 <= j < i ==> #[trigger] s[j].time@ != t
}

/// The in-memory store of readings, in insertion order.
#[derive(Clone, Debug, PartialEq)]
pub struct RecordBase {
    pub records: Vec<Record>,
}

impl RecordBase {
    pub fn new() -> (r: Self)
        ensures
            r.records@.len() == 0,
    {
        Self { records: Vec::new() }
    }

    /// Appends the reading.
    pub fn add_entry(&mut self, record: Record)
        ensures
            final(self).records@ == old(self).records@.push(record),
    {
        self.records.push(record);
    }

    /// The first reading with the key `timestamp`.
    pub fn get_by_timestamp(&self, timestamp: String) -> (r: Result<&Record, Errors>)
        ensures
            match r {
                Ok(rec) => exists|i: int| is_first_time(self.records@, timestamp@, i) && *rec
                    == self.records@[i],
                Err(e) => !has_time(self.records@, timestamp@) && e == Errors::UserError(400),
            },
    {
        let mut i: usize = 0;
        while i < self.records.len()
            invariant
                i <= self.records@.len(),
                forall|j: int| 0 <= j < i ==> #[trigger] self.records@[j].time@ != timestamp@,
            decreases self.records@.len() - i,
        {
            if self.records[i].time == timestamp {
                return Ok(&self.records[i]);
            }
            i = i + 1;
        }
        Err(Errors::UserError(400))
    }
}

/// A store of readings that does no work: it logs each call and answers with
/// fixed data.
#[derive(Clone, Debug)]
pub struct RecordBaseMock {
    records: Vec<Record>,
    pub calls: Vec<RecordCalls>,
}

/// One logged call, with its arguments.
#[derive(Clone, Debug, PartialEq)]
pub enum RecordCalls {
    AddEntry { record: Record },
    GetByTimestamp { timestamp: String },
}

impl RecordBaseMock {
    /// The fixed data that lookups answer with.
    pub closed spec fn data(&self) -> Seq<Record> {
        self.records@
    }

    /// The calls logged so far, oldest first.
    pub closed spec fn log(&self) -> Seq<RecordCalls> {
        self.calls@
    }

    pub fn new(records: Vec<Record>) -> (r: Self)
        ensures
            r.data() == records@,
            r.log().len() == 0,
    {
        Self { records, calls: Vec::new() }
    }

    /// Logs the call; stores nothing.
    pub fn add_entry(&mut self, record: Record)
        ensures
            final(self).log() == old(self).log().push(RecordCalls::AddEntry { record }),
            final(self).data() == old(self).data(),
    {
        self.calls.push(RecordCalls::AddEntry { record });
    }

    /// Logs the call and answers the first reading of the fixed data, whatever
    /// the key; with no data it answers as a store that lacks the key.
    pub fn get_by_timestamp(&mut self, timestamp: String) -> (r: Result<&Record, Errors>)
        ensures
            final(self).log() == old(self).log().push(RecordCalls::GetByTimestamp { timestamp }),
            final(self).data() == old(self).data(),
            match r {
                Ok(rec) => old(self).data().len() > 0 && *rec == old(self).data()[0],
                Err(e) => old(self).data().len() == 0 && e == Errors::UserError(400),
            },
    {
        self.calls.push(RecordCalls::GetByTimestamp { timestamp });
        if self.records.len() == 0 {
            Err(Errors::UserError(400))
        } else {
            Ok(&self.records[0])
        }
    }
}

/// The store of readings behind the service: the real one, or the recording double.
#[derive(Clone, Debug)]
pub enum RecordStore {
    DataBase(RecordBase),
    DataBaseMock(RecordBaseMock),
}

impl RecordStore {
    /// The readings that the store holds, or, for the double, its fixed data.
    pub open spec fn readings(&self) -> Seq<Record> {
        match self {
            RecordStore::DataBase(d) => d.records@,
            RecordStore::DataBaseMock(m) => m.data(),
        }
    }

    /// The call log of the double; the real store has none.
    pub open spec fn log(&self) -> Seq<RecordCalls> {
        match self {
            RecordStore::DataBase(_) => Seq::empty(),
            RecordStore::DataBaseMock(m) => m.log(),
        }
    }

    /// An empty real store.
    pub fn new() -> (r: Self)
        ensures
            r is DataBase,
            r.readings().len() == 0,
    {
        RecordStore::DataBase(RecordBase::new())
    }

    pub fn add_entry(&mut self, record: Record)
        ensures
            (*final(self) is DataBase) == (*old(self) is DataBase),
            *old(self) is DataBase ==> final(self).readings() == old(self).readings().push(record),
            *old(self) is DataBaseMock ==> final(self).readings() == old(self).readings()
                && final(self).log() == old(self).log().push(RecordCalls::AddEntry { record }),
    {
        match self {
            RecordStore::DataBase(database) => database.add_entry(record),
            RecordStore::DataBaseMock(database_mock) => database_mock.add_entry(record),
        }
    }

    pub fn get_by_timestamp(&mut self, timestamp: String) -> (r: Result<&Record, Errors>)
        ensures
            (*final(self) is DataBase) == (*old(self) is DataBase),
            final(self).readings() == old(self).readings(),
            *old(self) is DataBase ==> *final(self) == *old(self) && match r {
                Ok(rec) => exists|i: int| is_first_time(old(self).readings(), timestamp@, i)
                    && *rec == old(self).readings()[i],
                Err(e) => !has_time(old(self).readings(), timestamp@) && e == Errors::UserError(
                    400,
                ),
            },
            *old(self) is DataBaseMock ==> final(self).log() == old(self).log().push(
                RecordCalls::GetByTimestamp { timestamp },
            ) && match r {
                Ok(rec) => old(self).readings().len() > 0 && *rec == old(self).readings()[0],
                Err(e) => old(self).readings().len() == 0 && e == Errors::UserError(400),
            },
    {
        match self {
            RecordStore::DataBase(database) => database.get_by_timestamp(timestamp),
            RecordStore::DataBaseMock(database_mock) => database_mock.get_by_timestamp(timestamp),
        }
    }
}

} // verus!
