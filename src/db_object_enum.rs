use vstd::prelude::*;

use crate::db_mock::{DataBaseMock, MockCalls};
use crate::db_object::{
    apply_changes, assigned_id, has_id, is_first, with_id, DataBase, UserEnum,
};
use crate::{Errors, User};

verus! {

/// The user store behind the service: the real one, or the recording double.
#[derive(Clone, Debug)]
pub enum DataObjectEnum {
    DataBase(DataBase),
    DataBaseMock(DataBaseMock),
}

impl DataObjectEnum {
    /// The users that the store holds, or, for the double, its fixed data.
    pub open spec fn users(&self) -> Seq<User> {
        match self {
            DataObjectEnum::DataBase(d) => d.db@,
            DataObjectEnum::DataBaseMock(m) => m.data(),
        }
    }

    /// The two stores are told apart by their variant, which no operation changes.
    pub open spec fn same_kind(&self, other: &Self) -> bool {
        (self is DataBase) == (other is DataBase)
    }

    /// The call log of the double; the real store has none.
    pub open spec fn log(&self) -> Seq<MockCalls> {
        match self {
            DataObjectEnum::DataBase(_) => Seq::empty(),
            DataObjectEnum::DataBaseMock(m) => m.log(),
        }
    }

    /// An empty real store.
    pub fn new() -> (r: Self)
        ensures
            r is DataBase,
            r.users().len() == 0,
    {
        DataObjectEnum::DataBase(DataBase::new())
    }

    pub fn add_entry(&mut self, user: User, new_id: Option<u32>) -> (r: u32)
        requires
            *old(self) is DataBase ==> assigned_id(old(self).users(), new_id) <= u32::MAX,
        ensures
            final(self).same_kind(old(self)),
            *old(self) is DataBase ==> r as int == assigned_id(old(self).users(), new_id)
                && final(self).users() == old(self).users().push(with_id(user, r)),
            *old(self) is DataBaseMock ==> r == 0 && final(self).users() == old(self).users()
                && final(self).log() == old(self).log().push(MockCalls::AddEntry { user, new_id }),
    {
        match self {
            DataObjectEnum::DataBase(database) => database.add_entry(user, new_id),
            DataObjectEnum::DataBaseMock(database_mock) => database_mock.add_entry(user, new_id),
        }
    }

    pub fn remove_entry(&mut self, id: u32) -> (r: Result<usize, Errors>)
        ensures
            final(self).same_kind(old(self)),
            *old(self) is DataBase ==> match r {
                Ok(i) => is_first(old(self).users(), id, i as int) && final(self).users() == old(
                    self,
                ).users().remove(i as int),
                Err(e) => !has_id(old(self).users(), id) && e == Errors::UserError(400)
                    && final(self).users() == old(self).users(),
            },
            *old(self) is DataBaseMock ==> r == Ok::<usize, Errors>(0) && final(self).users()
                == old(self).users() && final(self).log() == old(self).log().push(
                MockCalls::RemoveEntry { id },
            ),
    {
        match self {
            DataObjectEnum::DataBase(database) => database.remove_entry(id),
            DataObjectEnum::DataBaseMock(database_mock) => database_mock.remove_entry(id),
        }
    }

    pub fn change_user(&mut self, id: u32, data: Vec<UserEnum>) -> (r: Result<usize, Errors>)
        ensures
            final(self).same_kind(old(self)),
            *old(self) is DataBase ==> match r {
                Ok(i) => is_first(old(self).users(), id, i as int) && final(self).users() == old(
                    self,
                ).users().update(i as int, apply_changes(old(self).users()[i as int], data@)),
                Err(e) => !has_id(old(self).users(), id) && e == Errors::UserError(400)
                    && final(self).users() == old(self).users(),
            },
            *old(self) is DataBaseMock ==> r == Ok::<usize, Errors>(0) && final(self).users()
                == old(self).users() && final(self).log() == old(self).log().push(
                MockCalls::ChangeUser { id, data },
            ),
    {
        match self {
            DataObjectEnum::DataBase(database) => database.change_user(id, data),
            DataObjectEnum::DataBaseMock(database_mock) => database_mock.change_user(id, data),
        }
    }

    pub fn get_all(&mut self) -> (r: &Vec<User>)
        ensures
            final(self).same_kind(old(self)),
            r@ == old(self).users(),
            final(self).users() == old(self).users(),
            *old(self) is DataBase ==> *final(self) == *old(self),
            *old(self) is DataBaseMock ==> final(self).log() == old(self).log().push(
                MockCalls::GetAll,
            ),
    {
        match self {
            DataObjectEnum::DataBase(database) => database.get_all(),
            DataObjectEnum::DataBaseMock(database_mock) => database_mock.get_all(),
        }
    }

    pub fn get_one(&mut self, id: u32) -> (r: Result<&User, Errors>)
        ensures
            final(self).same_kind(old(self)),
            final(self).users() == old(self).users(),
            *old(self) is DataBase ==> *final(self) == *old(self) && match r {
                Ok(u) => exists|i: int| is_first(old(self).users(), id, i) && *u == old(
                    self,
                ).users()[i],
                Err(e) => !has_id(old(self).users(), id) && e == Errors::UserError(400),
            },
            *old(self) is DataBaseMock ==> final(self).log() == old(self).log().push(
                MockCalls::GetOne { id },
            ) && match r {
                Ok(u) => old(self).users().len() > 0 && *u == old(self).users()[0],
                Err(e) => old(self).users().len() == 0 && e == Errors::UserError(400),
            },
    {
        match self {
            DataObjectEnum::DataBase(database) => database.get_one(id),
            DataObjectEnum::DataBaseMock(database_mock) => database_mock.get_one(id),
        }
    }
}

} // verus!
