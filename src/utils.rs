use vstd::prelude::*;

use crate::db_mock::MockCalls;
use crate::db_object::{apply_changes, has_id, is_first, next_id, with_id, UserEnum};
use crate::db_object_enum::DataObjectEnum;
use crate::fields::{
    changes_for, decode_changes, decode_new_user, has_invalid_change, string_map_of,
    user_matches, valid_new_user,
};
use crate::http::{number_text, route, routed, Route};
use vstd::string::StringSliceAdditionalSpecFns;
use crate::records::{has_time, is_first_time, RecordCalls, RecordStore};
use crate::{Record, User};

verus! {

/// The error taxonomy of a request; each kind carries the HTTP status to answer with.
#[derive(Debug, PartialEq, Eq, Structural, Clone, Copy)]
pub enum Errors {
    ServerError(u16),
    UserError(u16),
}

/// The decimal digit for `d`.
pub open spec fn digit_char(d: nat) -> char {
    ((d % 10) + 48) as char
}

/// The decimal text of `n`, without leading zeros.
pub open spec fn decimal_text_of(n: nat) -> Seq<char>
    decreases n,
{
    if n < 10 {
        seq![digit_char(n)]
    } else {
        decimal_text_of(n / 10).push(digit_char(n % 10))
    }
}

/// A copy of `u`.
pub fn copy_user(u: &User) -> (r: User)
    ensures
        r == *u,
{
    User {
        id: u.id,
        name: u.name.clone(),
        lastname: u.lastname.clone(),
        birth_year: u.birth_year,
        group: u.group,
    }
}

/// A copy of the users `v`, in order.
pub fn copy_users(v: &Vec<User>) -> (r: Vec<User>)
    ensures
        r@ == v@,
{
    let mut out: Vec<User> = Vec::new();
    let mut i: usize = 0;
    while i < v.len()
        invariant
            i <= v@.len(),
            out@ == v@.subrange(0, i as int),
        decreases v@.len() - i,
    {
        out.push(copy_user(&v[i]));
        i = i + 1;
    }
    assert(v@.subrange(0, v@.len() as int) == v@);
    out
}

/// A copy of the reading `r`.
pub fn copy_record(rec: &Record) -> (r: Record)
    ensures
        r == *rec,
{
    Record {
        time: rec.time.clone(),
        pm10: rec.pm10,
        dust: rec.dust,
        carbon_dioxide: rec.carbon_dioxide,
    }
}

/// The answer to one request, before it is written out: data to be encoded as
/// JSON, a short text, or an error.
#[derive(Debug, PartialEq, Clone)]
pub enum Reply {
    Users(Vec<User>),
    OneUser(User),
    Reading(Record),
    Created(String),
    Done(String),
    Failed(Errors),
}

/// The HTTP status of a reply.
pub open spec fn status_of(r: Reply) -> u16 {
    match r {
        Reply::Users(_) => 200,
        Reply::OneUser(_) => 200,
        Reply::Reading(_) => 200,
        Reply::Created(_) => 201,
        Reply::Done(_) => 204,
        Reply::Failed(Errors::ServerError(c)) => c,
        Reply::Failed(Errors::UserError(c)) => c,
    }
}

/// The fixed text that answers an error; it never carries internal detail.
pub open spec fn error_text_of(e: Errors) -> Seq<char> {
    match e {
        Errors::UserError(400) => "Invalid input"@,
        Errors::UserError(404) => "Not found"@,
        Errors::UserError(_) => "User error"@,
        Errors::ServerError(_) => "Internal serve error"@,
    }
}

impl Reply {
    pub fn status(&self) -> (r: u16)
        ensures
            r == status_of(*self),
    {
        match self {
            Reply::Users(_) => 200,
            Reply::OneUser(_) => 200,
            Reply::Reading(_) => 200,
            Reply::Created(_) => 201,
            Reply::Done(_) => 204,
            Reply::Failed(Errors::ServerError(c)) => *c,
            Reply::Failed(Errors::UserError(c)) => *c,
        }
    }
}

/// The body text that answers an error.
pub fn error_text(e: Errors) -> (r: String)
    ensures
        r@ == error_text_of(e),
{
    match e {
        Errors::UserError(400) => "Invalid input".to_owned(),
        Errors::UserError(404) => "Not found".to_owned(),
        Errors::UserError(_) => "User error".to_owned(),
        Errors::ServerError(_) => "Internal serve error".to_owned(),
    }
}

/// The state behind the service: the user store and the store of readings. The
/// caller holds it behind one lock, so that each request's store work runs alone.
pub struct UserController {
    pub database: DataObjectEnum,
    pub records: RecordStore,
}

/// The user store of `n` holds what that of `o` held, and its readings are untouched.
pub open spec fn users_kept(o: UserController, n: UserController) -> bool {
    &&& n.database.same_kind(&o.database)
    &&& n.database.users() == o.database.users()
    &&& n.database.log() == o.database.log()
    &&& n.records == o.records
}

/// The readings of `n` are those of `o`, and its user store is untouched.
pub open spec fn records_kept(o: UserController, n: UserController) -> bool {
    &&& n.database == o.database
    &&& n.records == o.records
}

/// The double in `n` logged `call` after what `o` had, and nothing else changed in it.
pub open spec fn user_call_logged(o: UserController, n: UserController, call: MockCalls) -> bool {
    &&& n.database is DataBaseMock
    &&& n.database.users() == o.database.users()
    &&& n.database.log() == o.database.log().push(call)
    &&& n.records == o.records
}

/// The double of readings in `n` logged `call` after what `o` had.
pub open spec fn record_call_logged(o: UserController, n: UserController, call: RecordCalls) -> bool {
    &&& n.records is DataBaseMock
    &&& n.records.readings() == o.records.readings()
    &&& n.records.log() == o.records.log().push(call)
    &&& n.database == o.database
}

/// Listing: all users in insertion order.
pub open spec fn listed(o: UserController, n: UserController, r: Seq<User>) -> bool {
    &&& r == o.database.users()
    &&& o.database is DataBase ==> users_kept(o, n)
    &&& o.database is DataBaseMock ==> user_call_logged(o, n, MockCalls::GetAll)
}

/// Lookup of one user by key.
pub open spec fn shown(o: UserController, n: UserController, id: u32, r: Result<User, Errors>) -> bool {
    let s = o.database.users();
    &&& o.database is DataBase ==> users_kept(o, n) && match r {
        Ok(u) => exists|i: int| is_first(s, id, i) && u == s[i],
        Err(e) => !has_id(s, id) && e == Errors::UserError(400),
    }
    &&& o.database is DataBaseMock ==> user_call_logged(o, n, MockCalls::GetOne { id }) && match r {
        Ok(u) => s.len() > 0 && u == s[0],
        Err(e) => s.len() == 0 && e == Errors::UserError(400),
    }
}

/// Creation of a user from a JSON body: the body must decode to a valid new
/// user, which is stored under the next key; the reply is that key in decimal.
pub open spec fn added(o: UserController, n: UserController, body: Seq<char>, r: Result<String, Errors>) -> bool {
    let s = o.database.users();
    match string_map_of(body) {
        Some(m) if valid_new_user(m) => {
            &&& o.database is DataBase ==> if next_id(s) <= u32::MAX {
                &&& r is Ok && r->Ok_0@ == decimal_text_of(next_id(s) as nat)
                &&& n.records == o.records
                &&& n.database is DataBase
                &&& exists|u: User| user_matches(m, u) && n.database.users() == s.push(
                    with_id(u, next_id(s) as u32),
                )
            } else {
                r == Err::<String, Errors>(Errors::ServerError(500)) && users_kept(o, n)
            }
            &&& o.database is DataBaseMock ==> r is Ok && r->Ok_0@ == decimal_text_of(0)
                && exists|u: User| user_matches(m, u) && user_call_logged(
                o,
                n,
                MockCalls::AddEntry { user: u, new_id: None },
            )
        },
        _ => r == Err::<String, Errors>(Errors::UserError(400)) && users_kept(o, n),
    }
}

/// Partial update from a JSON body: each field of the body is one change, and
/// the changes apply to the first user with the key.
pub open spec fn changed(o: UserController, n: UserController, id: u32, body: Seq<char>, r: Result<String, Errors>) -> bool {
    let s = o.database.users();
    match string_map_of(body) {
        Some(m) if !has_invalid_change(m) => {
            &&& o.database is DataBase ==> if has_id(s, id) {
                &&& r is Ok && r->Ok_0@ == "Updated user"@
                &&& n.records == o.records
                &&& n.database is DataBase
                &&& exists|i: int, cs: Seq<UserEnum>|
                    is_first(s, id, i) && changes_for(m, cs) && n.database.users() == s.update(
                        i,
                        apply_changes(s[i], cs),
                    )
            } else {
                r == Err::<String, Errors>(Errors::UserError(400)) && users_kept(o, n)
            }
            &&& o.database is DataBaseMock ==> r is Ok && r->Ok_0@ == "Updated user"@
                && exists|cs: Vec<UserEnum>| changes_for(m, cs@) && user_call_logged(
                o,
                n,
                MockCalls::ChangeUser { id, data: cs },
            )
        },
        _ => r == Err::<String, Errors>(Errors::UserError(400)) && users_kept(o, n),
    }
}

/// Removal of the first user with the key.
pub open spec fn deleted(o: UserController, n: UserController, id: u32, r: Result<String, Errors>) -> bool {
    let s = o.database.users();
    &&& o.database is DataBase ==> if has_id(s, id) {
        &&& r is Ok && r->Ok_0@ == "Removed user"@
        &&& n.records == o.records
        &&& n.database is DataBase
        &&& exists|i: int| is_first(s, id, i) && n.database.users() == s.remove(i)
    } else {
        r == Err::<String, Errors>(Errors::UserError(400)) && users_kept(o, n)
    }
    &&& o.database is DataBaseMock ==> r is Ok && r->Ok_0@ == "Removed user"@
        && user_call_logged(o, n, MockCalls::RemoveEntry { id })
}

/// Lookup of one reading by its timestamp.
pub open spec fn shown_reading(o: UserController, n: UserController, t: String, r: Result<Record, Errors>) -> bool {
    let s = o.records.readings();
    &&& o.records is DataBase ==> records_kept(o, n) && match r {
        Ok(rec) => exists|i: int| is_first_time(s, t@, i) && rec == s[i],
        Err(e) => !has_time(s, t@) && e == Errors::UserError(400),
    }
    &&& o.records is DataBaseMock ==> record_call_logged(
        o,
        n,
        RecordCalls::GetByTimestamp { timestamp: t },
    ) && match r {
        Ok(rec) => s.len() > 0 && rec == s[0],
        Err(e) => s.len() == 0 && e == Errors::UserError(400),
    }
}

/// Storing a reading: accepted when its timestamp is not empty; the reply is a
/// fixed `0`.
pub open spec fn reading_added(o: UserController, n: UserController, data: Record, r: Result<String, Errors>) -> bool {
    if data.time@.len() > 0 {
        &&& r is Ok && r->Ok_0@ == "0"@
        &&& o.records is DataBase ==> n.database == o.database && n.records is DataBase
            && n.records.readings() == o.records.readings().push(data)
        &&& o.records is DataBaseMock ==> record_call_logged(
            o,
            n,
            RecordCalls::AddEntry { record: data },
        )
    } else {
        r == Err::<String, Errors>(Errors::UserError(400)) && records_kept(o, n)
    }
}

/// `r` answers the route `rt` on the state `o`, leaving `n`. A rejected route
/// is answered with its error and leaves every store as it was.
pub open spec fn dispatched(
    o: UserController,
    n: UserController,
    rt: Route,
    body: Seq<char>,
    reading: Option<Record>,
    r: Reply,
) -> bool {
    match rt {
        Route::ListUsers => r is Users && listed(o, n, r->Users_0@),
        Route::ShowUser(id) => match r {
            Reply::OneUser(u) => shown(o, n, id, Ok(u)),
            Reply::Failed(e) => shown(o, n, id, Err(e)),
            _ => false,
        },
        Route::AddUser => match r {
            Reply::Created(t) => added(o, n, body, Ok(t)),
            Reply::Failed(e) => added(o, n, body, Err(e)),
            _ => false,
        },
        Route::ChangeUser(id) => match r {
            Reply::Done(t) => changed(o, n, id, body, Ok(t)),
            Reply::Failed(e) => changed(o, n, id, body, Err(e)),
            _ => false,
        },
        Route::DeleteUser(id) => match r {
            Reply::Done(t) => deleted(o, n, id, Ok(t)),
            Reply::Failed(e) => deleted(o, n, id, Err(e)),
            _ => false,
        },
        Route::ShowReading(t) => match r {
            Reply::Reading(rec) => shown_reading(o, n, t, Ok(rec)),
            Reply::Failed(e) => shown_reading(o, n, t, Err(e)),
            _ => false,
        },
        Route::AddReading => match reading {
            None => r == Reply::Failed(Errors::UserError(400)) && n == o,
            Some(d) => match r {
                Reply::Created(t) => reading_added(o, n, d, Ok(t)),
                Reply::Failed(e) => reading_added(o, n, d, Err(e)),
                _ => false,
            },
        },
        Route::Rejected(e) => r == Reply::Failed(e) && n == o,
    }
}

impl UserController {
    pub fn new(database: DataObjectEnum, records: RecordStore) -> (r: Self)
        ensures
            r.database == database,
            r.records == records,
    {
        Self { database, records }
    }

    /// All users, in insertion order.
    pub fn show_users(&mut self) -> (r: Vec<User>)
        ensures
            listed(*old(self), *final(self), r@),
    {
        copy_users(self.database.get_all())
    }

    /// The first user with the key `id`.
    pub fn show_user(&mut self, id: u32) -> (r: Result<User, Errors>)
        ensures
            shown(*old(self), *final(self), id, r),
    {
        match self.database.get_one(id) {
            Ok(u) => Ok(copy_user(u)),
            Err(e) => Err(e),
        }
    }

    /// Creates a user from a JSON body and answers its key.
    pub fn add_user(&mut self, body: &str) -> (r: Result<String, Errors>)
        ensures
            added(*old(self), *final(self), body@, r),
    {
        let user = match decode_new_user(body) {
            Ok(u) => u,
            Err(e) => {
                return Err(e);
            },
        };
        if let DataObjectEnum::DataBase(d) = &self.database {
            let n = d.db.len();
            if n > 0 && d.db[n - 1].id == 4294967295 {
                return Err(Errors::ServerError(500));
            }
        }
        let ghost u = user;
        let id = self.database.add_entry(user, None);
        Ok(number_text(id as u64))
    }

    /// Applies the changes that a JSON body describes to the user with the key `id`.
    pub fn change_user_data(&mut self, id: u32, body: &str) -> (r: Result<String, Errors>)
        ensures
            changed(*old(self), *final(self), id, body@, r),
    {
        let changes = match decode_changes(body) {
            Ok(cs) => cs,
            Err(e) => {
                return Err(e);
            },
        };
        let ghost cs = changes;
        match self.database.change_user(id, changes) {
            Ok(_) => Ok("Updated user".to_owned()),
            Err(e) => Err(e),
        }
    }

    /// Removes the user with the key `id`.
    pub fn delete_user(&mut self, id: u32) -> (r: Result<String, Errors>)
        ensures
            deleted(*old(self), *final(self), id, r),
    {
        match self.database.remove_entry(id) {
            Ok(_) => Ok("Removed user".to_owned()),
            Err(e) => Err(e),
        }
    }

    /// The first reading with the key `timestamp`.
    pub fn show_timestamp(&mut self, timestamp: String) -> (r: Result<Record, Errors>)
        ensures
            shown_reading(*old(self), *final(self), timestamp, r),
    {
        match self.records.get_by_timestamp(timestamp) {
            Ok(rec) => Ok(copy_record(rec)),
            Err(e) => Err(e),
        }
    }

    /// Stores a reading if it is valid.
    pub fn add_record(&mut self, data: Record) -> (r: Result<String, Errors>)
        ensures
            reading_added(*old(self), *final(self), data, r),
    {
        if data.validate() {
            self.records.add_entry(data);
            Ok("0".to_owned())
        } else {
            Err(Errors::UserError(400))
        }
    }

    /// Answers one route. `body` is the request body; `reading` is that body
    /// decoded as a reading, where it is one.
    pub fn dispatch(&mut self, rt: Route, body: &str, reading: Option<Record>) -> (r: Reply)
        ensures
            dispatched(*old(self), *final(self), rt, body@, reading, r),
    {
        match rt {
            Route::ListUsers => Reply::Users(self.show_users()),
            Route::ShowUser(id) => match self.show_user(id) {
                Ok(u) => Reply::OneUser(u),
                Err(e) => Reply::Failed(e),
            },
            Route::AddUser => match self.add_user(body) {
                Ok(t) => Reply::Created(t),
                Err(e) => Reply::Failed(e),
            },
            Route::ChangeUser(id) => match self.change_user_data(id, body) {
                Ok(t) => Reply::Done(t),
                Err(e) => Reply::Failed(e),
            },
            Route::DeleteUser(id) => match self.delete_user(id) {
                Ok(t) => Reply::Done(t),
                Err(e) => Reply::Failed(e),
            },
            Route::ShowReading(t) => match self.show_timestamp(t) {
                Ok(rec) => Reply::Reading(rec),
                Err(e) => Reply::Failed(e),
            },
            Route::AddReading => match reading {
                None => Reply::Failed(Errors::UserError(400)),
                Some(d) => match self.add_record(d) {
                    Ok(t) => Reply::Created(t),
                    Err(e) => Reply::Failed(e),
                },
            },
            Route::Rejected(e) => Reply::Failed(e),
        }
    }

    /// Answers one request: routes it by method and path, then runs the route.
    /// A request whose route is rejected (an unknown route, or a user key that
    /// is not a number) is answered with that error before any store is used.
    pub fn handle(&mut self, method: &str, path: &str, body: &str, reading: Option<Record>) -> (r: Reply)
        ensures
            exists|rt: Route|
                routed(method@, path@, path.spec_bytes(), rt) && dispatched(
                    *old(self),
                    *final(self),
                    rt,
                    body@,
                    reading,
                    r,
                ),
            forall|e: Errors|
                routed(method@, path@, path.spec_bytes(), Route::Rejected(e)) ==> r
                    == Reply::Failed(e) && *final(self) == *old(self),
    {
        let rt = route(method, path);
        self.dispatch(rt, body, reading)
    }
}

} // verus!
