//! A small CRUD service core: an in-memory user store with a recording test
//! double, a store of sensor readings keyed by timestamp, and the request
//! framing and routing that map HTTP requests onto store operations.

use vstd::prelude::*;

pub mod db_mock;
pub mod db_object;
pub mod db_object_enum;
pub mod fields;
pub mod http;
pub mod records;
pub mod utils;

pub use utils::Errors;

verus! {

/// The access level of a user.
#[derive(Debug, PartialEq, Eq, Structural, Clone, Copy)]
pub enum UserGroup {
    User,
    Premium,
    Admin,
}

/// One user record; `id` is the lookup key assigned by the store.
#[derive(Debug, PartialEq, Clone)]
pub struct User {
    pub id: u32,
    pub name: String,
    pub lastname: String,
    pub birth_year: u16,
    pub group: UserGroup,
}

/// One sensor reading, keyed by its timestamp `time`. The three measurements are
/// carried, never computed on: each is held as the bit pattern of an IEEE-754
/// double (`f64::to_bits`).
#[derive(Debug, PartialEq, Clone)]
pub struct Record {
    pub time: String,
    pub pm10: u64,
    pub dust: u64,
    pub carbon_dioxide: u64,
}

impl Record {
    /// A reading is accepted when its key is present: the timestamp is not empty.
    pub fn validate(&self) -> (r: bool)
        ensures
            r == (self.time@.len() > 0),
    {
        !self.time.as_str().is_empty()
    }
}

} // verus!
