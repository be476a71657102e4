//! JSON values as the protocol delivers them, with the lookups the library makes on them.

use crate::text::str_equal;
use vstd::prelude::*;
use vstd::string::StringExecFns;

verus! {

/// A JSON value. Integers keep their value; any other number keeps its JSON text, which the
/// library carries along without reading it.
#[derive(Debug)]
pub enum Json {
    Null,
    Bool(bool),
    /// A non-negative integer.
    PosInt(u64),
    /// A negative integer.
    NegInt(i64),
    /// A number that is not an integer, as its JSON text.
    Fractional(String),
    Str(String),
    Array(Vec<Json>),
    /// The members of an object, each key once.
    Object(Vec<(String, Json)>),
}

/// The member `key` of an object among its members.
pub open spec fn members_get(ms: Seq<(String, Json)>, key: Seq<char>) -> Option<Json>
    decreases ms.len(),
{
    if ms.len() == 0 {
        None
    } else if ms[0].0@ == key {
        Some(ms[0].1)
    } else {
        members_get(ms.drop_first(), key)
    }
}

/// The keys of an object's members, in order.
pub open spec fn keys_of(j: Json) -> Seq<Seq<char>> {
    match j {
        Json::Object(ms) => ms@.map_values(|m: (String, Json)| m.0@),
        _ => Seq::empty(),
    }
}

/// Whether `j` is the JSON string `s`.
pub open spec fn is_str(j: Option<Json>, s: Seq<char>) -> bool {
    j matches Some(Json::Str(x)) && x@ == s
}

/// An owned copy of a key.
pub fn key(k: &str) -> (r: String)
    ensures
        r@ == k@,
{
    String::from_str(k)
}

/// The member found for `key` is the first one with that key.
pub proof fn lemma_members_get_at(ms: Seq<(String, Json)>, key: Seq<char>, i: int)
    requires
        0 <= i < ms.len(),
        ms[i].0@ == key,
        forall|j: int| 0 <= j < i ==> ms[j].0@ != key,
    ensures
        members_get(ms, key) == Some(ms[i].1),
    decreases i,
{
    if i > 0 {
        assert forall|j: int| 0 <= j < i - 1 implies ms.drop_first()[j].0@ != key by {
            assert(ms.drop_first()[j] == ms[j + 1]);
        }
        lemma_members_get_at(ms.drop_first(), key, i - 1);
    }
}

/// `value.get(key)`: the member of an object; `None` for anything else.
pub open spec fn get_spec(j: Json, key: Seq<char>) -> Option<Json> {
    match j {
        Json::Object(ms) => members_get(ms@, key),
        _ => None,
    }
}

/// The member `key` of `j`, if `j` is given and is an object.
pub open spec fn get_opt(j: Option<Json>, key: Seq<char>) -> Option<Json> {
    match j {
        Some(v) => get_spec(v, key),
        None => None,
    }
}

/// `as_str`.
pub open spec fn str_spec(j: Option<Json>) -> Option<Seq<char>> {
    match j {
        Some(Json::Str(s)) => Some(s@),
        _ => None,
    }
}

/// `as_u64`.
pub open spec fn u64_spec(j: Option<Json>) -> Option<u64> {
    match j {
        Some(Json::PosInt(n)) => Some(n),
        _ => None,
    }
}

/// `as_i64`.
pub open spec fn i64_spec(j: Option<Json>) -> Option<i64> {
    match j {
        Some(Json::PosInt(n)) => if n <= i64::MAX as u64 {
            Some(n as i64)
        } else {
            None
        },
        Some(Json::NegInt(n)) => Some(n),
        _ => None,
    }
}

/// `as_bool`.
pub open spec fn bool_spec(j: Option<Json>) -> Option<bool> {
    match j {
        Some(Json::Bool(b)) => Some(b),
        _ => None,
    }
}

/// `as_array`.
pub open spec fn array_spec(j: Option<Json>) -> Option<Seq<Json>> {
    match j {
        Some(Json::Array(a)) => Some(a@),
        _ => None,
    }
}

/// The object's members whose values are strings, as (key, string) pairs, in order.
pub open spec fn string_members(ms: Seq<(String, Json)>) -> Seq<(Seq<char>, Seq<char>)>
    decreases ms.len(),
{
    if ms.len() == 0 {
        Seq::empty()
    } else {
        let r = string_members(ms.drop_last());
        match ms.last().1 {
            Json::Str(s) => r.push((ms.last().0@, s@)),
            _ => r,
        }
    }
}

/// The keys of members, in order.
pub open spec fn member_keys(ms: Seq<(String, Json)>) -> Seq<Seq<char>> {
    ms.map_values(|m: (String, Json)| m.0@)
}

/// The names of (name, value) pairs, in order.
pub open spec fn pair_names(ps: Seq<(Seq<char>, Seq<char>)>) -> Seq<Seq<char>> {
    ps.map_values(|p: (Seq<char>, Seq<char>)| p.0)
}

/// Every name of the string members is a key of the object.
pub proof fn lemma_string_members_keys(ms: Seq<(String, Json)>)
    ensures
        forall|i: int| #![trigger string_members(ms)[i]] 0 <= i < string_members(ms).len() ==> member_keys(ms).contains(
            string_members(ms)[i].0,
        ),
    decreases ms.len(),
{
    if ms.len() > 0 {
        let d = ms.drop_last();
        lemma_string_members_keys(d);
        assert forall|i: int| #![trigger string_members(ms)[i]] 0 <= i < string_members(ms).len() implies member_keys(ms).contains(
            string_members(ms)[i].0,
        ) by {
            if i < string_members(d).len() {
                let j = choose|j: int| 0 <= j < member_keys(d).len() && member_keys(d)[j] == string_members(d)[i].0;
                assert(member_keys(ms)[j] == member_keys(d)[j]);
            } else {
                assert(member_keys(ms)[ms.len() - 1] == ms.last().0@);
            }
        }
    }
}

/// Law: an object whose keys are distinct has string members whose names are distinct.
pub proof fn law_string_members_names_once(ms: Seq<(String, Json)>)
    requires
        member_keys(ms).no_duplicates(),
    ensures
        pair_names(string_members(ms)).no_duplicates(),
    decreases ms.len(),
{
    if ms.len() > 0 {
        let d = ms.drop_last();
        assert(member_keys(d) =~= member_keys(ms).drop_last());
        assert(member_keys(d).no_duplicates()) by {
            assert forall|a: int, b: int| 0 <= a < member_keys(d).len() && 0 <= b < member_keys(d).len() && a != b implies member_keys(d)[a] != member_keys(d)[b] by {
                assert(member_keys(d)[a] == member_keys(ms)[a]);
                assert(member_keys(d)[b] == member_keys(ms)[b]);
            }
        }
        law_string_members_names_once(d);
        lemma_string_members_keys(d);
        let r = string_members(d);
        match ms.last().1 {
            Json::Str(s) => {
                let k = ms.last().0@;
                assert(!pair_names(r).contains(k)) by {
                    if pair_names(r).contains(k) {
                        let i = choose|i: int| 0 <= i < pair_names(r).len() && pair_names(r)[i] == k;
                        assert(r[i].0 == k);
                        let j = choose|j: int| 0 <= j < member_keys(d).len() && member_keys(d)[j] == r[i].0;
                        assert(member_keys(ms)[j] == k);
                        assert(member_keys(ms)[ms.len() - 1] == k);
                    }
                }
                assert(pair_names(r.push((k, s@))) =~= pair_names(r).push(k));
                assert forall|a: int, b: int| 0 <= a < pair_names(r).push(k).len() && 0 <= b < pair_names(r).push(k).len() && a != b implies pair_names(r).push(k)[a] != pair_names(r).push(k)[b] by {
                    if a == r.len() as int {
                        assert(pair_names(r)[b] == pair_names(r).push(k)[b]);
                    } else if b == r.len() as int {
                        assert(pair_names(r)[a] == pair_names(r).push(k)[a]);
                    }
                }
            },
            _ => {},
        }
    }
}

pub open spec fn opt_ref(r: Option<&Json>) -> Option<Json> {
    match r {
        Some(x) => Some(*x),
        None => None,
    }
}

impl Json {
    /// `value.get(key)`.
    pub fn get(&self, key: &str) -> (r: Option<&Json>)
        ensures
            opt_ref(r) == get_spec(*self, key@),
    {
        match self {
            Json::Object(ms) => {
                let mut i: usize = 0;
                assert(ms@.skip(0) =~= ms@);
                while i < ms.len()
                    invariant
                        i <= ms@.len(),
                        *self == Json::Object(*ms),
                        members_get(ms@, key@) == members_get(ms@.skip(i as int), key@),
                    decreases ms.len() - i,
                {
                    assert(ms@.skip(i as int).drop_first() =~= ms@.skip(i + 1));
                    if str_equal(ms[i].0.as_str(), key) {
                        let found = &ms[i].1;
                        assert(ms@.skip(i as int)[0] == ms@[i as int]);
                        assert(members_get(ms@, key@) == Some(ms@[i as int].1));
                        return Some(found);
                    }
                    i = i + 1;
                }
                None
            },
            _ => None,
        }
    }

    /// `value.as_str()`.
    pub fn as_str(&self) -> (r: Option<&str>)
        ensures
            match r {
                Some(s) => str_spec(Some(*self)) == Some(s@),
                None => str_spec(Some(*self)) is None,
            },
    {
        match self {
            Json::Str(s) => Some(s.as_str()),
            _ => None,
        }
    }

    /// `value.as_u64()`.
    pub fn as_u64(&self) -> (r: Option<u64>)
        ensures
            r == u64_spec(Some(*self)),
    {
        match self {
            Json::PosInt(n) => Some(*n),
            _ => None,
        }
    }

    /// `value.as_i64()`.
    pub fn as_i64(&self) -> (r: Option<i64>)
        ensures
            r == i64_spec(Some(*self)),
    {
        match self {
            Json::PosInt(n) => if *n <= i64::MAX as u64 {
                Some(*n as i64)
            } else {
                None
            },
            Json::NegInt(n) => Some(*n),
            _ => None,
        }
    }

    /// `value.as_bool()`.
    pub fn as_bool(&self) -> (r: Option<bool>)
        ensures
            r == bool_spec(Some(*self)),
    {
        match self {
            Json::Bool(b) => Some(*b),
            _ => None,
        }
    }

    /// `value.as_array()`.
    pub fn as_array(&self) -> (r: Option<&Vec<Json>>)
        ensures
            match r {
                Some(a) => array_spec(Some(*self)) == Some(a@),
                None => array_spec(Some(*self)) is None,
            },
    {
        match self {
            Json::Array(a) => Some(a),
            _ => None,
        }
    }

}

/// The member `key` of `j` when `j` is given.
pub fn get_in<'a>(j: Option<&'a Json>, key: &str) -> (r: Option<&'a Json>)
    ensures
        opt_ref(r) == get_opt(opt_ref(j), key@),
{
    match j {
        Some(v) => v.get(key),
        None => None,
    }
}

/// `as_str` of an optional value, as an owned string.
pub fn str_of(j: Option<&Json>) -> (r: Option<String>)
    ensures
        match r {
            Some(s) => str_spec(opt_ref(j)) == Some(s@),
            None => str_spec(opt_ref(j)) is None,
        },
{
    match j {
        Some(Json::Str(s)) => Some(s.clone()),
        _ => None,
    }
}

/// `as_u64` of an optional value.
pub fn u64_of(j: Option<&Json>) -> (r: Option<u64>)
    ensures
        r == u64_spec(opt_ref(j)),
{
    match j {
        Some(v) => v.as_u64(),
        None => None,
    }
}

/// `as_i64` of an optional value.
pub fn i64_of(j: Option<&Json>) -> (r: Option<i64>)
    ensures
        r == i64_spec(opt_ref(j)),
{
    match j {
        Some(v) => v.as_i64(),
        None => None,
    }
}

/// `as_bool` of an optional value.
pub fn bool_of(j: Option<&Json>) -> (r: Option<bool>)
    ensures
        r == bool_spec(opt_ref(j)),
{
    match j {
        Some(v) => v.as_bool(),
        None => None,
    }
}

/// The string-valued members of an object, in order; empty for anything that is not an object.
pub fn string_pairs(j: Option<&Json>) -> (r: Vec<(String, String)>)
    ensures
        r@.map_values(|p: (String, String)| (p.0@, p.1@)) == match opt_ref(j) {
            Some(Json::Object(ms)) => string_members(ms@),
            _ => Seq::empty(),
        },
        opt_ref(j) matches Some(Json::Object(ms)) && member_keys(ms@).no_duplicates() ==> pair_names(
            r@.map_values(|p: (String, String)| (p.0@, p.1@)),
        ).no_duplicates(),
{
    let mut out: Vec<(String, String)> = Vec::new();
    match j {
        Some(Json::Object(ms)) => {
            let mut i: usize = 0;
            while i < ms.len()
                invariant
                    i <= ms@.len(),
                    out@.map_values(|p: (String, String)| (p.0@, p.1@)) == string_members(
                        ms@.take(i as int),
                    ),
                decreases ms.len() - i,
            {
                assert(ms@.take(i + 1).drop_last() =~= ms@.take(i as int));
                let ghost before = out@;
                match &ms[i].1 {
                    Json::Str(s) => {
                        out.push((ms[i].0.clone(), s.clone()));
                    },
                    _ => {},
                }
                i = i + 1;
                assert(out@.map_values(|p: (String, String)| (p.0@, p.1@)) =~= string_members(
                    ms@.take(i as int),
                ));
            }
            assert(ms@.take(i as int) =~= ms@);
            proof {
                if member_keys(ms@).no_duplicates() {
                    law_string_members_names_once(ms@);
                }
            }
            out
        },
        _ => {
            assert(out@.map_values(|p: (String, String)| (p.0@, p.1@)) =~= Seq::<
                (Seq<char>, Seq<char>),
            >::empty());
            out
        },
    }
}

/// A lower-case hexadecimal digit.
pub open spec fn hex_digit(n: int) -> char {
    if n < 10 {
        ('0' as int + n) as char
    } else {
        ('a' as int + n - 10) as char
    }
}

/// One character as it stands inside a JSON string literal: `"` and `\` after a backslash,
/// backspace, tab, line feed, form feed and carriage return as `\b \t \n \f \r`, the other
/// control characters below 0x20 as `\u00` and two hexadecimal digits, and every other
/// character as it is.
pub open spec fn json_escape_char(c: char) -> Seq<char> {
    let n = c as int;
    if c == '"' {
        seq!['\\', '"']
    } else if c == '\\' {
        seq!['\\', '\\']
    } else if n == 8 {
        seq!['\\', 'b']
    } else if n == 9 {
        seq!['\\', 't']
    } else if n == 10 {
        seq!['\\', 'n']
    } else if n == 12 {
        seq!['\\', 'f']
    } else if n == 13 {
        seq!['\\', 'r']
    } else if n < 32 {
        seq!['\\', 'u', '0', '0', hex_digit(n / 16), hex_digit(n % 16)]
    } else {
        seq![c]
    }
}

/// The characters of `s`, each escaped as inside a JSON string literal.
pub open spec fn json_escaped(s: Seq<char>) -> Seq<char>
    decreases s.len(),
{
    if s.len() == 0 {
        Seq::empty()
    } else {
        json_escaped(s.drop_last()) + json_escape_char(s.last())
    }
}

/// What `serde_json::to_string` writes for a string: the string as a JSON string literal,
/// its characters escaped between two double quotes.
pub open spec fn json_quote(s: Seq<char>) -> Seq<char> {
    seq!['"'] + json_escaped(s) + seq!['"']
}

/// `serde_json::to_string` of a string slice. Claimed: it succeeds (writing a string into a
/// byte buffer cannot fail), and the text is `json_quote` of `s`.
#[verifier::external_body]
pub fn to_json_string(s: &str) -> (r: Result<String, serde_json::Error>)
    ensures
        r is Ok,
        r matches Ok(q) ==> q@ == json_quote(s@),
{
    serde_json::to_string(s)
}

/// The value of member `key`, taken out of `j`; `null` when `j` is not an object or lacks it.
pub fn take_member(j: Json, key: &str) -> (r: Json)
    ensures
        r == match get_spec(j, key@) {
            Some(v) => v,
            None => Json::Null,
        },
{
    match j {
        Json::Object(ms) => {
            let ghost orig = ms@;
            let mut rest = ms;
            let mut i: usize = 0;
            assert(orig.skip(0) =~= orig);
            assert(orig.len() == rest.len());
            while rest.len() > 0
                invariant
                    i <= orig.len(),
                    orig.len() <= usize::MAX,
                    rest@ == orig.skip(i as int),
                    get_spec(j, key@) == members_get(orig, key@),
                    members_get(orig, key@) == members_get(orig.skip(i as int), key@),
                decreases rest.len(),
            {
                let (k, v) = rest.remove(0);
                assert(orig.skip(i as int)[0] == orig[i as int]);
                assert(orig.skip(i as int).remove(0) =~= orig.skip(i + 1));
                assert(orig.skip(i as int).drop_first() =~= orig.skip(i + 1));
                if str_equal(k.as_str(), key) {
                    return v;
                }
                i = i + 1;
            }
            Json::Null
        },
        _ => Json::Null,
    }
}

/// An object from its members.
pub fn object(members: Vec<(String, Json)>) -> (r: Json)
    ensures
        r == Json::Object(members),
{
    Json::Object(members)
}

} // verus!
