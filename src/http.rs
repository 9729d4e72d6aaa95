use vstd::prelude::*;
use vstd::string::StringSliceAdditionalSpecFns;
use vstd::utf8::*;

use crate::utils::decimal_text_of;
use crate::Errors;

verus! {

broadcast use encode_utf8_decode_utf8;

/// Every byte of `b` is an ASCII decimal digit.
pub open spec fn all_digits(b: Seq<u8>) -> bool {
    forall|i: int| 0 <= i < b.len() ==> 48 <= #[trigger] b[i] <= 57
}

/// The number that the decimal digits `b` spell.
pub open spec fn decimal(b: Seq<u8>) -> nat
    decreases b.len(),
{
    if b.len() == 0 {
        0
    } else {
        decimal(b.drop_last()) * 10 + (b.last() - 48) as nat
    }
}

/// `b` read as an unsigned number no larger than `max`: one or more digits and
/// nothing else.
pub open spec fn decimal_upto(b: Seq<u8>, max: nat) -> Option<nat> {
    if b.len() > 0 && all_digits(b) && decimal(b) <= max {
        Some(decimal(b))
    } else {
        None
    }
}

/// A longer run of digits never spells a smaller number.
proof fn lemma_decimal_grows(b: Seq<u8>, k: int)
    requires
        0 <= k <= b.len(),
        all_digits(b),
    ensures
        decimal(b.subrange(0, k)) <= decimal(b),
    decreases b.len() - k,
{
    if k < b.len() {
        lemma_decimal_grows(b, k + 1);
        assert(b.subrange(0, k + 1).drop_last() == b.subrange(0, k));
    } else {
        assert(b.subrange(0, k) == b);
    }
}

/// Reads `b` as an unsigned decimal number no larger than `max`.
pub fn parse_decimal(b: &[u8], max: u64) -> (r: Option<u64>)
    ensures
        match decimal_upto(b@, max as nat) {
            Some(n) => r == Some(n as u64),
            None => r is None,
        },
{
    if b.len() == 0 {
        return None;
    }
    let mut acc: u64 = 0;
    let mut i: usize = 0;
    while i < b.len()
        invariant
            i <= b@.len(),
            all_digits(b@.subrange(0, i as int)),
            acc as nat == decimal(b@.subrange(0, i as int)),
            acc <= max,
        decreases b@.len() - i,
    {
        let c = b[i];
        assert(b@.subrange(0, i + 1).drop_last() == b@.subrange(0, i as int));
        if c < 48 || c > 57 {
            assert(!all_digits(b@)) by {
                assert(b@[i as int] == c);
            }
            return None;
        }
        let d = (c - 48) as u64;
        if d > max || acc > (max - d) / 10 {
            assert(acc * 10 + d > max) by (nonlinear_arith)
                requires
                    d > max || acc > (max - d) / 10,
                    d <= max ==> max - d >= 0,
            ;
            proof {
                if all_digits(b@) {
                    lemma_decimal_grows(b@, i + 1);
                }
            }
            return None;
        }
        assert(acc * 10 + d <= max) by (nonlinear_arith)
            requires
                acc <= (max - d) / 10,
                d <= max,
        ;
        acc = acc * 10 + d;
        i = i + 1;
    }
    assert(b@.subrange(0, b@.len() as int) == b@);
    Some(acc)
}

/// The text `b` begins with `lit`, and its first `n` bytes are exactly that text.
pub open spec fn prefixed(b: Seq<u8>, n: int, lit: Seq<char>) -> bool {
    is_char_boundary(b, n) && decode_utf8(b.subrange(0, n)) == lit
}

/// The text of `b` after its first `n` bytes.
pub open spec fn rest(b: Seq<u8>, n: int) -> Seq<char> {
    decode_utf8(b.subrange(n, b.len() as int))
}

/// The part of `s` after its first `n` bytes, where those bytes are the text `lit`.
fn strip_prefix_at<'a>(s: &'a str, n: usize, lit: &str) -> (r: Option<&'a str>)
    ensures
        match r {
            Some(t) => prefixed(s.spec_bytes(), n as int, lit@) && t.spec_bytes() == s.spec_bytes().subrange(
                n as int,
                s.spec_bytes().len() as int,
            ),
            None => !prefixed(s.spec_bytes(), n as int, lit@),
        },
{
    proof {
        broadcast use encode_utf8_valid_utf8;

    }
    if s.is_char_boundary(n) {
        let (a, b) = s.split_at(n);
        if a.to_owned() == lit.to_owned() {
            Some(b)
        } else {
            None
        }
    } else {
        None
    }
}

/// Where a request goes: a store operation with the key taken from the path, or
/// an error answered without touching any store.
#[derive(Debug, PartialEq, Clone)]
pub enum Route {
    ListUsers,
    ShowUser(u32),
    AddUser,
    ChangeUser(u32),
    DeleteUser(u32),
    ShowReading(String),
    AddReading,
    Rejected(Errors),
}

/// The route for a user key segment: the key if it reads as a `u32`, else a 400.
pub open spec fn id_route(seg: Seq<u8>, make: spec_fn(u32) -> Route) -> Route {
    match decimal_upto(seg, u32::MAX as nat) {
        Some(n) => make(n as u32),
        None => Route::Rejected(Errors::UserError(400)),
    }
}

/// The route table. `p` is the path's UTF-8 encoding.
pub open spec fn route_spec(m: Seq<char>, path: Seq<char>, p: Seq<u8>) -> Route {
    let item = p.subrange(7, p.len() as int);
    if m == "GET"@ && path == "/users"@ {
        Route::ListUsers
    } else if m == "POST"@ && path == "/users"@ {
        Route::AddUser
    } else if m == "POST"@ && path == "/weather"@ {
        Route::AddReading
    } else if m == "GET"@ && prefixed(p, 7, "/users/"@) {
        id_route(item, |n: u32| Route::ShowUser(n))
    } else if m == "PATCH"@ && prefixed(p, 7, "/users/"@) {
        id_route(item, |n: u32| Route::ChangeUser(n))
    } else if m == "DELETE"@ && prefixed(p, 7, "/users/"@) {
        id_route(item, |n: u32| Route::DeleteUser(n))
    } else {
        Route::Rejected(Errors::UserError(404))
    }
}

/// Maps a request's method and path to its route. A path under `/users/` whose
/// last segment is not a `u32` is rejected with 400; an unknown method and path
/// with 404.
pub fn route(method: &str, path: &str) -> (r: Route)
    ensures
        routed(method@, path@, path.spec_bytes(), r),
{
    proof {
        broadcast use encode_utf8_valid_utf8;

        reveal_strlit("GET");
        reveal_strlit("POST");
        reveal_strlit("PATCH");
        reveal_strlit("DELETE");
        reveal_strlit("/users");
        reveal_strlit("/weather");
    }
    let m = method.to_owned();
    let get = m == "GET".to_owned();
    let whole = path.to_owned();
    if get {
        if let Some(key) = strip_prefix_at(path, 9, "/weather/") {
            return Route::ShowReading(key.to_owned());
        }
    }
    let users = whole == "/users".to_owned();
    if get && users {
        Route::ListUsers
    } else if m == "POST".to_owned() && users {
        Route::AddUser
    } else if m == "POST".to_owned() && whole == "/weather".to_owned() {
        Route::AddReading
    } else if let Some(seg) = strip_prefix_at(path, 7, "/users/") {
        let is_patch = m == "PATCH".to_owned();
        let is_delete = m == "DELETE".to_owned();
        if !get && !is_patch && !is_delete {
            return Route::Rejected(Errors::UserError(404));
        }
        match parse_decimal(seg.as_bytes(), 4294967295) {
            Some(n) => {
                let id = n as u32;
                if get {
                    Route::ShowUser(id)
                } else if is_patch {
                    Route::ChangeUser(id)
                } else {
                    Route::DeleteUser(id)
                }
            },
            None => Route::Rejected(Errors::UserError(400)),
        }
    } else {
        Route::Rejected(Errors::UserError(404))
    }
}

/// `r` is the route of the method `m` and the path `path`, whose UTF-8
/// encoding is `p`: a `GET` under `/weather/` takes the rest of the path as the
/// key of a reading; every other request goes by the table.
pub open spec fn routed(m: Seq<char>, path: Seq<char>, p: Seq<u8>, r: Route) -> bool {
    if m_is_get(m) && prefixed(p, 9, "/weather/"@) {
        r is ShowReading && r->ShowReading_0@ == rest(p, 9)
    } else {
        r == route_spec(m, path, p)
    }
}

/// The method is `GET`.
pub open spec fn m_is_get(m: Seq<char>) -> bool {
    m == "GET"@
}

/// `c` in ASCII lower case.
pub open spec fn lower(c: u8) -> u8 {
    if 65 <= c <= 90 {
        (c + 32) as u8
    } else {
        c
    }
}

/// The bytes of `content-length:`.
pub open spec fn length_name() -> Seq<u8> {
    seq![99u8, 111, 110, 116, 101, 110, 116, 45, 108, 101, 110, 103, 116, 104, 58]
}

/// The line is a `Content-Length` header: its name, in any letter case, then a colon.
pub open spec fn is_length_header(b: Seq<u8>) -> bool {
    b.len() >= 15 && forall|i: int| 0 <= i < 15 ==> lower(#[trigger] b[i]) == length_name()[i]
}

/// `b` without its leading spaces.
pub open spec fn skip_spaces(b: Seq<u8>) -> Seq<u8>
    decreases b.len(),
{
    if b.len() > 0 && b[0] == 32 {
        skip_spaces(b.drop_first())
    } else {
        b
    }
}

/// `b` without its line end: the trailing CR and LF bytes.
pub open spec fn drop_eol(b: Seq<u8>) -> Seq<u8>
    decreases b.len(),
{
    if b.len() > 0 && (b.last() == 13 || b.last() == 10) {
        drop_eol(b.drop_last())
    } else {
        b
    }
}

/// The length that a `Content-Length` line gives: the number after the colon
/// and any spaces, or 0 where there is no such number.
pub open spec fn header_length(b: Seq<u8>) -> nat {
    match decimal_upto(drop_eol(skip_spaces(b.subrange(15, b.len() as int))), usize::MAX as nat) {
        Some(n) => n,
        None => 0,
    }
}

/// `i` is the first `Content-Length` line of `ls`.
pub open spec fn first_length_header(ls: Seq<Vec<u8>>, i: int) -> bool {
    &&& 0 <= i < ls.len()
    &&& is_length_header(ls[i]@)
    &&& forall|j: int| 0 <= j < i ==> !is_length_header(#[trigger] ls[j]@)
}

/// Whether the line is a `Content-Length` header.
fn length_header(b: &Vec<u8>) -> (r: bool)
    ensures
        r == is_length_header(b@),
{
    let name: [u8; 15] = [99, 111, 110, 116, 101, 110, 116, 45, 108, 101, 110, 103, 116, 104, 58];
    assert(name@ == length_name());
    if b.len() < 15 {
        return false;
    }
    let mut i: usize = 0;
    while i < 15
        invariant
            i <= 15,
            b@.len() >= 15,
            name@ == length_name(),
            forall|j: int| 0 <= j < i ==> lower(#[trigger] b@[j]) == length_name()[j],
        decreases 15 - i,
    {
        let c = b[i];
        let l = if 65 <= c && c <= 90 {
            c + 32
        } else {
            c
        };
        if l != name[i] {
            return false;
        }
        i = i + 1;
    }
    true
}

/// The length that one `Content-Length` line gives.
fn length_value(b: &Vec<u8>) -> (r: usize)
    requires
        b@.len() >= 15,
    ensures
        r as nat == header_length(b@),
{
    let n = b.len();
    let mut a: usize = 15;
    while a < n && b[a] == 32
        invariant
            15 <= a <= n,
            n == b@.len(),
            skip_spaces(b@.subrange(15, n as int)) == skip_spaces(b@.subrange(a as int, n as int)),
        decreases n - a,
    {
        assert(b@.subrange(a as int, n as int).drop_first() == b@.subrange(a + 1, n as int));
        a = a + 1;
    }
    let mut e: usize = n;
    while e > a && (b[e - 1] == 13 || b[e - 1] == 10)
        invariant
            a <= e <= n,
            n == b@.len(),
            skip_spaces(b@.subrange(15, n as int)) == b@.subrange(a as int, n as int),
            drop_eol(b@.subrange(a as int, n as int)) == drop_eol(b@.subrange(a as int, e as int)),
        decreases e,
    {
        assert(b@.subrange(a as int, e as int).drop_last() == b@.subrange(a as int, e - 1));
        e = e - 1;
    }
    let v = vstd::slice::slice_subrange(b.as_slice(), a, e);
    match parse_decimal(v, usize::MAX as u64) {
        Some(k) => k as usize,
        None => 0,
    }
}

/// The body length that the header lines announce: the value of the first
/// `Content-Length` line, whatever its letter case; 0 where there is none or its
/// value is not a number.
pub fn content_length(lines: &Vec<Vec<u8>>) -> (r: usize)
    ensures
        forall|i: int| first_length_header(lines@, i) ==> r as nat == header_length(lines@[i]@),
        (forall|i: int| 0 <= i < lines@.len() ==> !is_length_header(#[trigger] lines@[i]@))
            ==> r == 0,
{
    let mut i: usize = 0;
    while i < lines.len()
        invariant
            i <= lines@.len(),
            forall|j: int| 0 <= j < i ==> !is_length_header(#[trigger] lines@[j]@),
        decreases lines@.len() - i,
    {
        if length_header(&lines[i]) {
            return length_value(&lines[i]);
        }
        i = i + 1;
    }
    0
}

/// The line that ends the header: an empty line, or the end of the input.
pub fn ends_head(line: &Vec<u8>) -> (r: bool)
    ensures
        r == (line@.len() == 0 || line@ == seq![13u8, 10u8]),
{
    if line.len() == 0 {
        return true;
    }
    if line.len() == 2 && line[0] == 13 && line[1] == 10 {
        assert(line@ =~= seq![13u8, 10u8]);
        return true;
    }
    assert(line@.len() == 2 ==> line@[0] != 13 || line@[1] != 10);
    false
}

/// Relies on String::from_utf8: it succeeds exactly on valid UTF-8, and the
/// text holds the characters that the bytes encode.
#[verifier::external_body]
fn utf8_text(b: Vec<u8>) -> (r: Option<String>)
    ensures
        valid_utf8(b@) ==> r is Some && r->0@ == decode_utf8(b@),
        !valid_utf8(b@) ==> r is None,
{
    String::from_utf8(b).ok()
}

/// The text of a request body; bytes that are not UTF-8 are invalid input.
pub fn body_text(bytes: Vec<u8>) -> (r: Result<String, Errors>)
    ensures
        valid_utf8(bytes@) ==> r is Ok && r->Ok_0@ == decode_utf8(bytes@),
        !valid_utf8(bytes@) ==> r == Err::<String, Errors>(Errors::UserError(400)),
{
    match utf8_text(bytes) {
        Some(t) => Ok(t),
        None => Err(Errors::UserError(400)),
    }
}

/// `i` is the first space of `b` at or after `from`, or the end of `b`.
pub open spec fn space_at(b: Seq<u8>, from: int, i: int) -> bool {
    &&& from <= i <= b.len()
    &&& i < b.len() ==> b[i] == 32
    &&& forall|k: int| from <= k < i ==> #[trigger] b[k] != 32
}

/// The request line `line` gives the method `m` and the path `p`: the first
/// two space-separated words of the line without its line end.
pub open spec fn request_words(line: Seq<u8>, m: Seq<char>, p: Seq<char>) -> bool {
    let b = drop_eol(line);
    exists|i: int, j: int|
        #![trigger space_at(b, 0, i), space_at(b, i + 1, j)]
        space_at(b, 0, i) && i < b.len() && space_at(b, i + 1, j) && valid_utf8(b.subrange(0, i))
            && valid_utf8(b.subrange(i + 1, j)) && m == decode_utf8(b.subrange(0, i)) && p
            == decode_utf8(b.subrange(i + 1, j))
}

/// The first space of `b` in `from..end`, or `end`.
fn find_space(b: &Vec<u8>, from: usize, end: usize) -> (r: usize)
    requires
        from <= end <= b@.len(),
    ensures
        space_at(b@.subrange(0, end as int), from as int, r as int),
{
    let mut i: usize = from;
    while i < end && b[i] != 32
        invariant
            from <= i <= end,
            end <= b@.len(),
            forall|k: int| from <= k < i ==> #[trigger] b@[k] != 32,
        decreases end - i,
    {
        i = i + 1;
    }
    i
}

/// Splits a request line into its method and path. A line without a space, or
/// whose words are not UTF-8, is invalid input.
pub fn request_line(line: &Vec<u8>) -> (r: Result<(String, String), Errors>)
    ensures
        match r {
            Ok((m, p)) => request_words(line@, m@, p@),
            Err(e) => e == Errors::UserError(400) && forall|m: Seq<char>, p: Seq<char>|
                !request_words(line@, m, p),
        },
{
    let n = line.len();
    let mut e: usize = n;
    assert(line@.subrange(0, n as int) == line@);
    while e > 0 && (line[e - 1] == 13 || line[e - 1] == 10)
        invariant
            e <= n,
            n == line@.len(),
            drop_eol(line@) == drop_eol(line@.subrange(0, e as int)),
        decreases e,
    {
        assert(line@.subrange(0, e as int).drop_last() == line@.subrange(0, e - 1));
        e = e - 1;
    }
    let ghost b = line@.subrange(0, e as int);
    assert(drop_eol(line@) == b);
    let i = find_space(line, 0, e);
    if i == e {
        proof {
            assert forall|m: Seq<char>, p: Seq<char>| !request_words(line@, m, p) by {
                if request_words(line@, m, p) {
                    let (i2, j2) = choose|i2: int, j2: int|
                        #![trigger space_at(b, 0, i2), space_at(b, i2 + 1, j2)]
                        space_at(b, 0, i2) && i2 < b.len() && space_at(b, i2 + 1, j2)
                            && valid_utf8(b.subrange(0, i2)) && valid_utf8(b.subrange(i2 + 1, j2))
                            && m == decode_utf8(b.subrange(0, i2)) && p == decode_utf8(
                            b.subrange(i2 + 1, j2),
                        );
                    assert(b[i2] == 32);
                }
            }
        }
        return Err(Errors::UserError(400));
    }
    let j = find_space(line, i + 1, e);
    let mv = vstd::slice::slice_to_vec(vstd::slice::slice_subrange(line.as_slice(), 0, i));
    let pv = vstd::slice::slice_to_vec(vstd::slice::slice_subrange(line.as_slice(), i + 1, j));
    assert(mv@ == b.subrange(0, i as int));
    assert(pv@ == b.subrange(i + 1, j as int));
    proof {
        assert forall|i2: int, j2: int|
            #![trigger space_at(b, 0, i2), space_at(b, i2 + 1, j2)]
            space_at(b, 0, i2) && i2 < b.len() && space_at(b, i2 + 1, j2)
            implies i2 == i && j2 == j by {
            if i2 < i {
                assert(b[i2] == 32);
            }
            if i < i2 {
                assert(b[i as int] == 32);
            }
            if j2 < j {
                assert(b[j2] == 32);
            }
            if j < j2 {
                assert(b[j as int] == 32);
            }
        }
    }
    match (utf8_text(mv), utf8_text(pv)) {
        (Some(m), Some(p)) => Ok((m, p)),
        _ => Err(Errors::UserError(400)),
    }
}

/// Relies on `u64`'s `ToString`, which writes the number in decimal.
#[verifier::external_body]
pub(crate) fn number_text(n: u64) -> (r: String)
    ensures
        r@ == decimal_text_of(n as nat),
{
    n.to_string()
}

/// Relies on `String`'s `+`, which appends the text on the right.
#[verifier::external_body]
fn joined(a: String, b: &str) -> (r: String)
    ensures
        r@ == a@ + b@,
{
    a + b
}

/// The status line and headers that precede a response body of `length` bytes.
pub fn response_head(status: u16, length: usize) -> (r: String)
    ensures
        r@ == "HTTP/1.1 "@ + decimal_text_of(status as nat) + "\r\nContent-Length: "@
            + decimal_text_of(length as nat) + "\r\n\r\n"@,
{
    let code = number_text(status as u64);
    let len = number_text(length as u64);
    let head = joined("HTTP/1.1 ".to_owned(), code.as_str());
    let head = joined(head, "\r\nContent-Length: ");
    let head = joined(head, len.as_str());
    joined(head, "\r\n\r\n")
}

} // verus!
