use vstd::prelude::*;

use crate::db_object::UserEnum;
use crate::{Errors, User};

verus! {

/// A user store that does no work: it logs each call it receives and answers
/// with fixed data, so that a caller's use of the store can be inspected.
#[derive(Clone, Debug)]
pub struct DataBaseMock {
    db: Vec<User>,
    pub calls: Vec<MockCalls>,
}

/// One logged call, with its arguments.
#[derive(Clone, Debug, PartialEq)]
pub enum MockCalls {
    AddEntry { user: User, new_id: Option<u32> },
    RemoveEntry { id: u32 },
    ChangeUser { id: u32, data: Vec<UserEnum> },
    GetAll,
    GetOne { id: u32 },
}

impl DataBaseMock {
    /// The fixed data that lookups answer with.
    pub closed spec fn data(&self) -> Seq<User> {
        self.db@
    }

    /// The calls logged so far, oldest first.
    pub closed spec fn log(&self) -> Seq<MockCalls> {
        self.calls@
    }

    pub fn new(db: Vec<User>) -> (r: Self)
        ensures
            r.data() == db@,
            r.log().len() == 0,
    {
        Self { db, calls: Vec::new() }
    }

    /// Logs the call and answers 0.
    pub fn add_entry(&mut self, user: User, new_id: Option<u32>) -> (r: u32)
        ensures
            r == 0,
            final(self).log() == old(self).log().push(MockCalls::AddEntry { user, new_id }),
            final(self).data() == old(self).data(),
    {
        self.calls.push(MockCalls::AddEntry { user, new_id });
        0
    }

    /// Logs the call and answers position 0.
    pub fn remove_entry(&mut self, id: u32) -> (r: Result<usize, Errors>)
        ensures
            r == Ok::<usize, Errors>(0),
            final(self).log() == old(self).log().push(MockCalls::RemoveEntry { id }),
            final(self).data() == old(self).data(),
    {
        self.calls.push(MockCalls::RemoveEntry { id });
        Ok(0)
    }

    /// Logs the call and answers position 0.
    pub fn change_user(&mut self, id: u32, data: Vec<UserEnum>) -> (r: Result<usize, Errors>)
        ensures
            r == Ok::<usize, Errors>(0),
            final(self).log() == old(self).log().push(MockCalls::ChangeUser { id, data }),
            final(self).data() == old(self).data(),
    {
        self.calls.push(MockCalls::ChangeUser { id, data });
        Ok(0)
    }

    /// Logs the call and answers the fixed data.
    pub fn get_all(&mut self) -> (r: &Vec<User>)
        ensures
            r@ == old(self).data(),
            final(self).log() == old(self).log().push(MockCalls::GetAll),
            final(self).data() == old(self).data(),
    {
        self.calls.push(MockCalls::GetAll);
        &self.db
    }

    /// Logs the call and answers the first user of the fixed data, whatever the key;
    /// with no data it answers as a store that lacks the key.
    pub fn get_one(&mut self, id: u32) -> (r: Result<&User, Errors>)
        ensures
            final(self).log() == old(self).log().push(MockCalls::GetOne { id }),
            final(self).data() == old(self).data(),
            match r {
                Ok(u) => old(self).data().len() > 0 && *u == old(self).data()[0],
                Err(e) => old(self).data().len() == 0 && e == Errors::UserError(400),
            },
    {
        self.calls.push(MockCalls::GetOne { id });
        if self.db.len() == 0 {
            Err(Errors::UserError(400))
        } else {
            Ok(&self.db[0])
        }
    }
}

} // verus!
