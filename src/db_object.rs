use vstd::prelude::*;

use crate::{Errors, User, UserGroup};

verus! {

/// One change of a single field of a user.
#[derive(Clone, Debug, PartialEq)]
pub enum UserEnum {
    Name(String),
    Lastname(String),
    BirthYear(u16),
    Group(UserGroup),
}

/// Some entry of `s` has the key `id`.
pub open spec fn has_id(s: Seq<User>, id: u32) -> bool {
    exists|i: int| 0 <= i < s.len() && #[trigger] s[i].id == id
}

/// `i` is the position of the first entry of `s` with the key `id`.
pub open spec fn is_first(s: Seq<User>, id: u32, i: int) -> bool {
    &&& 0 <= i < s.len()
    &&& s[i].id == id
    &&& forall|j: int| 0 <= j < i ==> #[trigger] s[j].id != id
}

/// The key that auto-increment gives the next entry: one past the last key, or 0.
pub open spec fn next_id(s: Seq<User>) -> int {
    if s.len() == 0 {
        0
    } else {
        s.last().id + 1
    }
}

/// The key that an insertion assigns: the explicit one if given, else the next one.
pub open spec fn assigned_id(s: Seq<User>, new_id: Option<u32>) -> int {
    match new_id {
        Some(k) => k as int,
        None => next_id(s),
    }
}

/// `u` with its key replaced by `id`.
pub open spec fn with_id(u: User, id: u32) -> User {
    User { id, name: u.name, lastname: u.lastname, birth_year: u.birth_year, group: u.group }
}

/// `u` after one change.
pub open spec fn apply_change(u: User, c: UserEnum) -> User {
    match c {
        UserEnum::Name(n) => User { name: n, ..u },
        UserEnum::Lastname(l) => User { lastname: l, ..u },
        UserEnum::BirthYear(b) => User { birth_year: b, ..u },
        UserEnum::Group(g) => User { group: g, ..u },
    }
}

/// `u` after the changes, applied in order: of two changes to one field the later wins.
pub open spec fn apply_changes(u: User, cs: Seq<UserEnum>) -> User
    decreases cs.len(),
{
    if cs.len() == 0 {
        u
    } else {
        apply_change(apply_changes(u, cs.drop_last()), cs.last())
    }
}

/// An entry appended under a fresh auto-incremented key is what a lookup of that
/// key then finds: the inserted user with the key substituted. This holds where
/// no earlier entry already carries the key that auto-increment picks.
pub proof fn lemma_insert_then_get(s: Seq<User>, e: User)
    requires
        next_id(s) <= u32::MAX,
        !has_id(s, next_id(s) as u32),
    ensures
        ({
            let k = assigned_id(s, None) as u32;
            let t = s.push(with_id(e, k));
            is_first(t, k, s.len() as int) && t[s.len() as int] == with_id(e, k)
        }),
{
    let k = assigned_id(s, None) as u32;
    let t = s.push(with_id(e, k));
    assert forall|j: int| 0 <= j < s.len() implies #[trigger] t[j].id != k by {
        assert(t[j] == s[j]);
        if s[j].id == k {
            assert(has_id(s, k));
        }
    }
}

/// An explicit key is assigned as given, whatever keys the store already holds,
/// and the insertion keeps every earlier entry.
pub proof fn lemma_explicit_key(s: Seq<User>, e: User, k: u32)
    ensures
        assigned_id(s, Some(k)) == k,
        s.push(with_id(e, k)).len() == s.len() + 1,
        s.push(with_id(e, k)).subrange(0, s.len() as int) == s,
        s.push(with_id(e, k))[s.len() as int].id == k,
{
    assert(s.push(with_id(e, k)).subrange(0, s.len() as int) =~= s);
}

/// Changes leave the key alone, and each field that no change names keeps its value.
pub proof fn lemma_changes_touch_named_fields(u: User, cs: Seq<UserEnum>)
    ensures
        apply_changes(u, cs).id == u.id,
        (forall|j: int| 0 <= j < cs.len() ==> !(#[trigger] cs[j] is Name)) ==> apply_changes(
            u,
            cs,
        ).name == u.name,
        (forall|j: int| 0 <= j < cs.len() ==> !(#[trigger] cs[j] is Lastname)) ==> apply_changes(
            u,
            cs,
        ).lastname == u.lastname,
        (forall|j: int| 0 <= j < cs.len() ==> !(#[trigger] cs[j] is BirthYear)) ==> apply_changes(
            u,
            cs,
        ).birth_year == u.birth_year,
        (forall|j: int| 0 <= j < cs.len() ==> !(#[trigger] cs[j] is Group)) ==> apply_changes(
            u,
            cs,
        ).group == u.group,
    decreases cs.len(),
{
    if cs.len() > 0 {
        let p = cs.drop_last();
        lemma_changes_touch_named_fields(u, p);
        assert forall|j: int| 0 <= j < p.len() implies #[trigger] p[j] == cs[j] by {}
        assert(cs.last() == cs[cs.len() - 1]);
    }
}

/// Two insertions in a row, each with an auto-incremented key, get two different
/// keys, and the store then holds both entries after the earlier ones.
pub proof fn lemma_two_inserts_distinct(s: Seq<User>, e1: User, e2: User)
    requires
        next_id(s) + 1 <= u32::MAX,
    ensures
        ({
            let k1 = assigned_id(s, None) as u32;
            let s1 = s.push(with_id(e1, k1));
            let k2 = assigned_id(s1, None) as u32;
            let s2 = s1.push(with_id(e2, k2));
            &&& k1 != k2
            &&& s2.len() == s.len() + 2
            &&& s2.subrange(0, s.len() as int) == s
            &&& s2[s.len() as int] == with_id(e1, k1)
            &&& s2[s.len() + 1int] == with_id(e2, k2)
        }),
{
    let k1 = assigned_id(s, None) as u32;
    let s1 = s.push(with_id(e1, k1));
    let k2 = assigned_id(s1, None) as u32;
    let s2 = s1.push(with_id(e2, k2));
    assert(s1.last() == with_id(e1, k1));
    assert(s2.subrange(0, s.len() as int) =~= s);
}

/// The in-memory user store: users in insertion order.
#[derive(Clone, Debug, PartialEq)]
pub struct DataBase {
    pub db: Vec<User>,
}

/// Finds the first position of the key `id` in `v`.
pub fn position_of(v: &Vec<User>, id: u32) -> (r: Option<usize>)
    ensures
        match r {
            Some(i) => is_first(v@, id, i as int),
            None => !has_id(v@, id),
        },
{
    let mut i: usize = 0;
    while i < v.len()
        invariant
            i <= v@.len(),
            forall|j: int| 0 <= j < i ==> #[trigger] v@[j].id != id,
        decreases v@.len() - i,
    {
        if v[i].id == id {
            return Some(i);
        }
        i = i + 1;
    }
    None
}

impl DataBase {
    pub fn new() -> (r: Self)
        ensures
            r.db@.len() == 0,
    {
        Self { db: Vec::new() }
    }

    /// Appends `user` under the explicit key if one is given (with no check that
    /// it is unused), else under the next auto-incremented key; returns the key.
    pub fn add_entry(&mut self, user: User, new_id: Option<u32>) -> (r: u32)
        requires
            assigned_id(old(self).db@, new_id) <= u32::MAX,
        ensures
            r as int == assigned_id(old(self).db@, new_id),
            final(self).db@ == old(self).db@.push(with_id(user, r)),
    {
        let id: u32 = match new_id {
            Some(k) => k,
            None => {
                let n = self.db.len();
                if n == 0 {
                    0
                } else {
                    self.db[n - 1].id + 1
                }
            },
        };
        let mut user = user;
        user.id = id;
        self.db.push(user);
        id
    }

    /// Removes the first user with the key `id` and returns where it stood.
    pub fn remove_entry(&mut self, id: u32) -> (r: Result<usize, Errors>)
        ensures
            match r {
                Ok(i) => is_first(old(self).db@, id, i as int) && final(self).db@ == old(
                    self,
                ).db@.remove(i as int),
                Err(e) => !has_id(old(self).db@, id) && e == Errors::UserError(400)
                    && final(self).db@ == old(self).db@,
            },
    {
        match position_of(&self.db, id) {
            Some(i) => {
                self.db.remove(i);
                Ok(i)
            },
            None => Err(Errors::UserError(400)),
        }
    }

    /// Applies the changes, in order, to the first user with the key `id` and
    /// returns where it stands.
    pub fn change_user(&mut self, id: u32, data: Vec<UserEnum>) -> (r: Result<usize, Errors>)
        ensures
            match r {
                Ok(i) => is_first(old(self).db@, id, i as int) && final(self).db@ == old(
                    self,
                ).db@.update(i as int, apply_changes(old(self).db@[i as int], data@)),
                Err(e) => !has_id(old(self).db@, id) && e == Errors::UserError(400)
                    && final(self).db@ == old(self).db@,
            },
    {
        match position_of(&self.db, id) {
            Some(i) => {
                let mut user = self.db.remove(i);
                let ghost first = user;
                let mut k: usize = 0;
                while k < data.len()
                    invariant
                        k <= data@.len(),
                        user == apply_changes(first, data@.subrange(0, k as int)),
                    decreases data@.len() - k,
                {
                    proof {
                        assert(data@.subrange(0, k + 1).drop_last() == data@.subrange(0, k as int));
                    }
                    match &data[k] {
                        UserEnum::Name(n) => user.name = n.clone(),
                        UserEnum::Lastname(l) => user.lastname = l.clone(),
                        UserEnum::BirthYear(b) => user.birth_year = *b,
                        UserEnum::Group(g) => user.group = *g,
                    }
                    k = k + 1;
                }
                proof {
                    assert(data@.subrange(0, data@.len() as int) == data@);
                }
                self.db.insert(i, user);
                proof {
                    assert(self.db@ == old(self).db@.update(i as int, user));
                }
                Ok(i)
            },
            None => Err(Errors::UserError(400)),
        }
    }

    pub fn get_all(&self) -> (r: &Vec<User>)
        ensures
            r@ == self.db@,
    {
        &self.db
    }

    /// The first user with the key `id`.
    pub fn get_one(&self, id: u32) -> (r: Result<&User, Errors>)
        ensures
            match r {
                Ok(u) => exists|i: int| is_first(self.db@, id, i) && *u == self.db@[i],
                Err(e) => !has_id(self.db@, id) && e == Errors::UserError(400),
            },
    {
        match position_of(&self.db, id) {
            Some(i) => Ok(&self.db[i]),
            None => Err(Errors::UserError(400)),
        }
    }
}

} // verus!
