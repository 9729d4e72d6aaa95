use vstd::prelude::*;
use vstd::utf8::*;

use crate::db_object::UserEnum;
use crate::http::{decimal_upto, parse_decimal};
use crate::{Errors, User, UserGroup};

verus! {

/// The string-keyed object that a JSON text decodes to, if it is an object
/// whose values are all strings.
pub uninterp spec fn string_map_of(s: Seq<char>) -> Option<Map<Seq<char>, Seq<char>>>;

/// No two pairs share a key.
pub open spec fn unique_keys(v: Seq<(String, String)>) -> bool {
    forall|i: int, j: int| 0 <= i < j < v.len() ==> #[trigger] v[i].0@ != #[trigger] v[j].0@
}

/// The map from each key to its value.
pub open spec fn pairs_map(v: Seq<(String, String)>) -> Map<Seq<char>, Seq<char>>
    decreases v.len(),
{
    if v.len() == 0 {
        Map::empty()
    } else {
        pairs_map(v.drop_last()).insert(v.last().0@, v.last().1@)
    }
}

/// Relies on serde_json::from_str decoding into a `HashMap<String, String>`: it
/// succeeds exactly on a JSON object of string values, and the map's entries, one
/// per key, are that object's members.
#[verifier::external_body]
fn decode_string_map(s: &str) -> (r: Option<Vec<(String, String)>>)
    ensures
        match string_map_of(s@) {
            None => r is None,
            Some(m) => r matches Some(v) && unique_keys(v@) && pairs_map(v@) == m,
        },
{
    serde_json::from_str::<std::collections::HashMap<String, String>>(s).ok().map(
        |m| m.into_iter().collect(),
    )
}

/// With unique keys, each pair is an entry of the map, and the map has no other keys.
proof fn lemma_pairs_map(v: Seq<(String, String)>)
    requires
        unique_keys(v),
    ensures
        forall|i: int| 0 <= i < v.len() ==> #[trigger] pairs_map(v).contains_key(v[i].0@)
            && pairs_map(v)[v[i].0@] == v[i].1@,
        forall|k: Seq<char>| #[trigger]
            pairs_map(v).contains_key(k) ==> exists|i: int| 0 <= i < v.len() && v[i].0@ == k,
    decreases v.len(),
{
    if v.len() > 0 {
        let p = v.drop_last();
        assert(unique_keys(p)) by {
            assert forall|i: int, j: int| 0 <= i < j < p.len() implies #[trigger] p[i].0@
                != #[trigger] p[j].0@ by {
                assert(p[i] == v[i] && p[j] == v[j]);
            }
        }
        lemma_pairs_map(p);
        assert(v.last() == v[v.len() - 1]);
        assert(pairs_map(v) == pairs_map(p).insert(v.last().0@, v.last().1@));
        assert forall|i: int| 0 <= i < v.len() implies #[trigger] pairs_map(v).contains_key(
            v[i].0@,
        ) && pairs_map(v)[v[i].0@] == v[i].1@ by {
            if i < v.len() - 1 {
                assert(p[i] == v[i]);
                assert(v[i].0@ != v[v.len() - 1].0@);
            }
        }
        assert forall|k: Seq<char>| #[trigger] pairs_map(v).contains_key(k) implies exists|i: int|
            0 <= i < v.len() && v[i].0@ == k by {
            if k != v.last().0@ {
                let i = choose|i: int| 0 <= i < p.len() && p[i].0@ == k;
                assert(v[i] == p[i]);
            }
        }
    }
}

/// The value under `key`.
fn field<'a>(v: &'a Vec<(String, String)>, key: &str) -> (r: Option<&'a String>)
    requires
        unique_keys(v@),
    ensures
        match r {
            Some(s) => pairs_map(v@).contains_key(key@) && pairs_map(v@)[key@] == s@,
            None => !pairs_map(v@).contains_key(key@),
        },
{
    proof {
        lemma_pairs_map(v@);
    }
    let k = key.to_owned();
    let mut i: usize = 0;
    while i < v.len()
        invariant
            i <= v@.len(),
            k@ == key@,
            unique_keys(v@),
            forall|j: int| 0 <= j < i ==> #[trigger] v@[j].0@ != key@,
        decreases v@.len() - i,
    {
        if v[i].0 == k {
            proof {
                lemma_pairs_map(v@);
            }
            return Some(&v[i].1);
        }
        i = i + 1;
    }
    proof {
        lemma_pairs_map(v@);
    }
    None
}

/// The group that a name spells: `user`, `premium` or `admin`.
pub open spec fn group_of(s: Seq<char>) -> Option<UserGroup> {
    if s == "user"@ {
        Some(UserGroup::User)
    } else if s == "premium"@ {
        Some(UserGroup::Premium)
    } else if s == "admin"@ {
        Some(UserGroup::Admin)
    } else {
        None
    }
}

/// The year that a text spells: decimal digits, at most `u16::MAX`.
pub open spec fn year_of(s: Seq<char>) -> Option<nat> {
    decimal_upto(encode_utf8(s), u16::MAX as nat)
}

fn parse_group(s: &String) -> (r: Option<UserGroup>)
    ensures
        r == group_of(s@),
{
    proof {
        reveal_strlit("user");
        reveal_strlit("premium");
        reveal_strlit("admin");
    }
    if *s == "user".to_owned() {
        Some(UserGroup::User)
    } else if *s == "premium".to_owned() {
        Some(UserGroup::Premium)
    } else if *s == "admin".to_owned() {
        Some(UserGroup::Admin)
    } else {
        None
    }
}

fn parse_year(s: &String) -> (r: Option<u16>)
    ensures
        match year_of(s@) {
            Some(n) => r == Some(n as u16),
            None => r is None,
        },
{
    match parse_decimal(s.as_str().as_bytes(), 65535) {
        Some(n) => Some(n as u16),
        None => None,
    }
}

/// The object describes a new user: it has the four fields, with a valid year
/// and group.
pub open spec fn valid_new_user(m: Map<Seq<char>, Seq<char>>) -> bool {
    &&& m.contains_key("name"@)
    &&& m.contains_key("lastname"@)
    &&& m.contains_key("birth_year"@)
    &&& m.contains_key("group"@)
    &&& year_of(m["birth_year"@]) is Some
    &&& group_of(m["group"@]) is Some
}

/// `u` is the new user that `m` describes, with the key 0 until the store assigns one.
pub open spec fn user_matches(m: Map<Seq<char>, Seq<char>>, u: User) -> bool {
    &&& u.id == 0
    &&& u.name@ == m["name"@]
    &&& u.lastname@ == m["lastname"@]
    &&& year_of(m["birth_year"@]) == Some(u.birth_year as nat)
    &&& group_of(m["group"@]) == Some(u.group)
}

/// Builds a new user from decoded fields; other fields are ignored.
pub fn user_from_fields(v: &Vec<(String, String)>) -> (r: Result<User, Errors>)
    requires
        unique_keys(v@),
    ensures
        match r {
            Ok(u) => valid_new_user(pairs_map(v@)) && user_matches(pairs_map(v@), u),
            Err(e) => !valid_new_user(pairs_map(v@)) && e == Errors::UserError(400),
        },
{
    let name = field(v, "name");
    let lastname = field(v, "lastname");
    let year = field(v, "birth_year");
    let group = field(v, "group");
    match (name, lastname, year, group) {
        (Some(n), Some(l), Some(y), Some(g)) => {
            match (parse_year(y), parse_group(g)) {
                (Some(birth_year), Some(group)) => Ok(
                    User { id: 0, name: n.clone(), lastname: l.clone(), birth_year, group },
                ),
                _ => Err(Errors::UserError(400)),
            }
        },
        _ => Err(Errors::UserError(400)),
    }
}

/// The change that the field `k` with the value `s` asks for, if `k` names a
/// field of a user and `s` is a valid value for it.
pub open spec fn change_matches(k: Seq<char>, s: Seq<char>, c: UserEnum) -> bool {
    match c {
        UserEnum::Name(n) => k == "name"@ && n@ == s,
        UserEnum::Lastname(l) => k == "lastname"@ && l@ == s,
        UserEnum::BirthYear(b) => k == "birth_year"@ && year_of(s) == Some(b as nat),
        UserEnum::Group(g) => k == "group"@ && group_of(s) == Some(g),
    }
}

/// The field `k` with the value `s` is a valid change.
pub open spec fn valid_change(k: Seq<char>, s: Seq<char>) -> bool {
    ||| k == "name"@
    ||| k == "lastname"@
    ||| (k == "birth_year"@ && year_of(s) is Some)
    ||| (k == "group"@ && group_of(s) is Some)
}

/// The four field names are pairwise different.
proof fn lemma_field_names()
    ensures
        "name"@ != "lastname"@,
        "name"@ != "birth_year"@,
        "name"@ != "group"@,
        "lastname"@ != "birth_year"@,
        "lastname"@ != "group"@,
        "birth_year"@ != "group"@,
{
    reveal_strlit("name");
    reveal_strlit("lastname");
    reveal_strlit("birth_year");
    reveal_strlit("group");
    assert("name"@[0] == 'n');
    assert("lastname"@[0] == 'l');
    assert("birth_year"@[0] == 'b');
    assert("group"@[0] == 'g');
}

/// Turns decoded fields into changes, one per field and in the same order; any
/// unknown field or invalid value rejects the whole set.
pub fn changes_from_fields(v: &Vec<(String, String)>) -> (r: Result<Vec<UserEnum>, Errors>)
    ensures
        match r {
            Ok(cs) => cs@.len() == v@.len() && forall|i: int|
                0 <= i < v@.len() ==> change_matches(v@[i].0@, v@[i].1@, #[trigger] cs@[i]),
            Err(e) => e == Errors::UserError(400) && exists|i: int|
                0 <= i < v@.len() && !valid_change(#[trigger] v@[i].0@, v@[i].1@),
        },
{
    proof {
        reveal_strlit("name");
        reveal_strlit("lastname");
        reveal_strlit("birth_year");
        reveal_strlit("group");
    }
    let mut out: Vec<UserEnum> = Vec::new();
    let mut i: usize = 0;
    while i < v.len()
        invariant
            i <= v@.len(),
            out@.len() == i,
            forall|j: int| 0 <= j < i ==> change_matches(v@[j].0@, v@[j].1@, #[trigger] out@[j]),
        decreases v@.len() - i,
    {
        proof {
            lemma_field_names();
        }
        let k = &v[i].0;
        let s = &v[i].1;
        let c = if *k == "name".to_owned() {
            UserEnum::Name(s.clone())
        } else if *k == "lastname".to_owned() {
            UserEnum::Lastname(s.clone())
        } else if *k == "birth_year".to_owned() {
            match parse_year(s) {
                Some(y) => UserEnum::BirthYear(y),
                None => {
                    proof {
                        assert(!valid_change(v@[i as int].0@, v@[i as int].1@));
                    }
                    return Err(Errors::UserError(400));
                },
            }
        } else if *k == "group".to_owned() {
            match parse_group(s) {
                Some(g) => UserEnum::Group(g),
                None => {
                    proof {
                        assert(!valid_change(v@[i as int].0@, v@[i as int].1@));
                    }
                    return Err(Errors::UserError(400));
                },
            }
        } else {
            proof {
                assert(!valid_change(v@[i as int].0@, v@[i as int].1@));
            }
            return Err(Errors::UserError(400));
        };
        out.push(c);
        i = i + 1;
    }
    Ok(out)
}

/// Decodes a JSON body into the fields of a new user.
pub fn decode_new_user(body: &str) -> (r: Result<User, Errors>)
    ensures
        match string_map_of(body@) {
            Some(m) => match r {
                Ok(u) => valid_new_user(m) && user_matches(m, u),
                Err(e) => !valid_new_user(m) && e == Errors::UserError(400),
            },
            None => r == Err::<User, Errors>(Errors::UserError(400)),
        },
{
    match decode_string_map(body) {
        Some(v) => user_from_fields(&v),
        None => Err(Errors::UserError(400)),
    }
}

/// `cs` holds one change for each field of `m`, and nothing else: a change names
/// its field, so no two fields share one, and the counts agree.
pub open spec fn changes_for(m: Map<Seq<char>, Seq<char>>, cs: Seq<UserEnum>) -> bool {
    &&& cs.len() == m.len()
    &&& forall|k: Seq<char>| #![trigger m.contains_key(k)]
        m.contains_key(k) ==> exists|i: int| #![trigger cs[i]]
            0 <= i < cs.len() && change_matches(k, m[k], cs[i])
}

/// Some field of `m` is unknown or has an invalid value.
pub open spec fn has_invalid_change(m: Map<Seq<char>, Seq<char>>) -> bool {
    exists|k: Seq<char>| #[trigger] m.contains_key(k) && !valid_change(k, m[k])
}

/// Decodes a JSON body into a set of changes, one per field: a field changed at
/// most once, so the order in which they apply does not matter.
pub fn decode_changes(body: &str) -> (r: Result<Vec<UserEnum>, Errors>)
    ensures
        match string_map_of(body@) {
            Some(m) => match r {
                Ok(cs) => changes_for(m, cs@),
                Err(e) => e == Errors::UserError(400) && has_invalid_change(m),
            },
            None => r == Err::<Vec<UserEnum>, Errors>(Errors::UserError(400)),
        },
{
    match decode_string_map(body) {
        Some(v) => {
            proof {
                lemma_pairs_map(v@);
                lemma_pairs_len(v@);
            }
            let r = changes_from_fields(&v);
            proof {
                if r is Err {
                    let i = choose|i: int| 0 <= i < v@.len() && !valid_change(v@[i].0@, v@[i].1@);
                    assert(pairs_map(v@).contains_key(v@[i].0@));
                    assert(has_invalid_change(pairs_map(v@)));
                }
                if r is Ok {
                    let cs = r->Ok_0@;
                    let m = pairs_map(v@);
                    assert forall|k: Seq<char>| #![trigger m.contains_key(k)]
                        m.contains_key(k) implies exists|i: int| #![trigger cs[i]]
                            0 <= i < cs.len() && change_matches(k, m[k], cs[i]) by {
                        let i = choose|i: int| 0 <= i < v@.len() && v@[i].0@ == k;
                        assert(change_matches(v@[i].0@, v@[i].1@, cs[i]));
                    }
                    assert(cs.len() == m.len());
                    assert(changes_for(m, cs));
                }
            }
            r
        },
        None => Err(Errors::UserError(400)),
    }
}

/// With unique keys, the map has one entry per pair.
proof fn lemma_pairs_len(v: Seq<(String, String)>)
    requires
        unique_keys(v),
    ensures
        pairs_map(v).len() == v.len(),
        pairs_map(v).dom().finite(),
    decreases v.len(),
{
    if v.len() > 0 {
        let p = v.drop_last();
        assert(unique_keys(p)) by {
            assert forall|i: int, j: int| 0 <= i < j < p.len() implies #[trigger] p[i].0@
                != #[trigger] p[j].0@ by {
                assert(p[i] == v[i] && p[j] == v[j]);
            }
        }
        lemma_pairs_len(p);
        lemma_pairs_map(p);
        if pairs_map(p).contains_key(v.last().0@) {
            let i = choose|i: int| 0 <= i < p.len() && p[i].0@ == v.last().0@;
            assert(v[i] == p[i]);
        }
    }
}

} // verus!
