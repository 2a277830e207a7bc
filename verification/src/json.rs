//! A JSON document model used by the protocol logic, with its mathematical view and
//! verified navigation (key lookup, paths, scalar extraction).
use vstd::prelude::*;
use vstd::std_specs::vec::axiom_vec_index_decreases;
use crate::text::{str_eq, int_decimal, nat_decimal, push_char, i64_decimal, u64_decimal};

verus! {

broadcast use axiom_vec_index_decreases;

/// A JSON value as read from or written to the wire.
///
/// Numbers keep the integer forms the protocol logic reads; any other number is held
/// by its decimal text.
#[derive(Debug, PartialEq)]
pub enum JsonValue {
    Null,
    Bool(bool),
    Int(i64),
    UInt(u64),
    Float(String),
    Str(String),
    Array(Vec<JsonValue>),
    Object(Vec<(String, JsonValue)>),
}

/// The mathematical view of a [`JsonValue`].
pub enum Json {
    Null,
    Bool(bool),
    Int(i64),
    UInt(u64),
    Float(Seq<char>),
    Str(Seq<char>),
    Array(Seq<Json>),
    Object(Seq<(Seq<char>, Json)>),
}

pub open spec fn json_view(v: JsonValue) -> Json
    decreases v,
{
    match v {
        JsonValue::Null => Json::Null,
        JsonValue::Bool(b) => Json::Bool(b),
        JsonValue::Int(i) => Json::Int(i),
        JsonValue::UInt(u) => Json::UInt(u),
        JsonValue::Float(t) => Json::Float(t@),
        JsonValue::Str(s) => Json::Str(s@),
        JsonValue::Array(a) => Json::Array(
            Seq::new(
                a.len() as nat,
                |i: int|
                    if 0 <= i < a.len() {
                        json_view(a[i])
                    } else {
                        Json::Null
                    },
            ),
        ),
        JsonValue::Object(o) => Json::Object(
            Seq::new(
                o.len() as nat,
                |i: int|
                    if 0 <= i < o.len() {
                        (o[i].0@, json_view(o[i].1))
                    } else {
                        (Seq::empty(), Json::Null)
                    },
            ),
        ),
    }
}

impl View for JsonValue {
    type V = Json;

    open spec fn view(&self) -> Json {
        json_view(*self)
    }
}


/// Lookup of `key` among object entries: the first entry with that key.
pub open spec fn entries_get(e: Seq<(Seq<char>, Json)>, key: Seq<char>) -> Option<Json>
    decreases e.len(),
{
    if e.len() == 0 {
        None
    } else if e[0].0 == key {
        Some(e[0].1)
    } else {
        entries_get(e.drop_first(), key)
    }
}

/// `value.get(key)`: the member `key` of an object; nothing for any other value.
pub open spec fn json_get(v: Json, key: Seq<char>) -> Option<Json> {
    match v {
        Json::Object(e) => entries_get(e, key),
        _ => None,
    }
}

/// The value reached from `v` by following the object keys of `path` in turn.
pub open spec fn json_path(v: Json, path: Seq<Seq<char>>) -> Option<Json>
    decreases path.len(),
{
    if path.len() == 0 {
        Some(v)
    } else {
        match json_get(v, path[0]) {
            Some(c) => json_path(c, path.drop_first()),
            None => None,
        }
    }
}

/// `value.as_str()`.
pub open spec fn json_as_str(v: Json) -> Option<Seq<char>> {
    match v {
        Json::Str(s) => Some(s),
        _ => None,
    }
}

/// `value.as_i64()`.
pub open spec fn json_as_i64(v: Json) -> Option<i64> {
    match v {
        Json::Int(i) => Some(i),
        Json::UInt(u) => if u <= i64::MAX {
            Some(u as i64)
        } else {
            None
        },
        _ => None,
    }
}

/// `value.as_bool()`.
pub open spec fn json_as_bool(v: Json) -> Option<bool> {
    match v {
        Json::Bool(b) => Some(b),
        _ => None,
    }
}

/// `value.as_array()`.
pub open spec fn json_as_array(v: Json) -> Option<Seq<Json>> {
    match v {
        Json::Array(a) => Some(a),
        _ => None,
    }
}

pub open spec fn path_view(p: Seq<&str>) -> Seq<Seq<char>> {
    p.map_values(|s: &str| s@)
}

pub open spec fn paths_view(ps: Seq<&[&str]>) -> Seq<Seq<Seq<char>>> {
    ps.map_values(|p: &[&str]| path_view(p@))
}

pub open spec fn opt_json(r: Option<&JsonValue>) -> Option<Json> {
    match r {
        Some(x) => Some(x@),
        None => None,
    }
}

pub open spec fn opt_str(r: Option<&str>) -> Option<Seq<char>> {
    match r {
        Some(x) => Some(x@),
        None => None,
    }
}

pub open spec fn opt_string(r: Option<String>) -> Option<Seq<char>> {
    match r {
        Some(x) => Some(x@),
        None => None,
    }
}

/// The string at the first of `paths` that leads to a string.
pub open spec fn first_str(v: Json, paths: Seq<Seq<Seq<char>>>) -> Option<Seq<char>>
    decreases paths.len(),
{
    if paths.len() == 0 {
        None
    } else {
        match json_path(v, paths[0]) {
            Some(x) => match json_as_str(x) {
                Some(s) => Some(s),
                None => first_str(v, paths.drop_first()),
            },
            None => first_str(v, paths.drop_first()),
        }
    }
}

/// The integer at the first of `paths` that leads to an integer.
pub open spec fn first_i64(v: Json, paths: Seq<Seq<Seq<char>>>) -> Option<i64>
    decreases paths.len(),
{
    if paths.len() == 0 {
        None
    } else {
        match json_path(v, paths[0]) {
            Some(x) => match json_as_i64(x) {
                Some(s) => Some(s),
                None => first_i64(v, paths.drop_first()),
            },
            None => first_i64(v, paths.drop_first()),
        }
    }
}

/// The boolean at the first of `paths` that leads to a boolean.
pub open spec fn first_bool(v: Json, paths: Seq<Seq<Seq<char>>>) -> Option<bool>
    decreases paths.len(),
{
    if paths.len() == 0 {
        None
    } else {
        match json_path(v, paths[0]) {
            Some(x) => match json_as_bool(x) {
                Some(s) => Some(s),
                None => first_bool(v, paths.drop_first()),
            },
            None => first_bool(v, paths.drop_first()),
        }
    }
}

proof fn lemma_entries_get_step(e: Seq<(Seq<char>, Json)>, i: int, key: Seq<char>)
    requires
        0 <= i < e.len(),
        e[i].0 != key,
    ensures
        entries_get(e.subrange(i, e.len() as int), key) == entries_get(
            e.subrange(i + 1, e.len() as int),
            key,
        ),
{
    assert(e.subrange(i, e.len() as int).drop_first() =~= e.subrange(i + 1, e.len() as int));
}

/// `value.get(key)`.
pub fn get<'a>(v: &'a JsonValue, key: &str) -> (r: Option<&'a JsonValue>)
    ensures
        opt_json(r) == json_get(v@, key@),
{
    match v {
        JsonValue::Object(entries) => {
            let ghost ev = match v@ {
                Json::Object(e) => e,
                _ => Seq::empty(),
            };
            assert(ev.subrange(0, ev.len() as int) =~= ev);
            let mut i: usize = 0;
            while i < entries.len()
                invariant
                    v@ == Json::Object(ev),
                    *v == JsonValue::Object(*entries),
                    ev.len() == entries@.len(),
                    forall|j: int|
                        0 <= j < entries@.len() ==> #[trigger] ev[j] == (
                            entries@[j].0@,
                            json_view(entries@[j].1),
                        ),
                    i <= entries.len(),
                    entries_get(ev, key@) == entries_get(ev.subrange(i as int, ev.len() as int), key@),
                decreases entries.len() - i,
            {
                assert(ev[i as int] == (entries@[i as int].0@, json_view(entries@[i as int].1)));
                if str_eq(entries[i].0.as_str(), key) {
                    let r = &entries[i].1;
                    assert(ev.subrange(i as int, ev.len() as int)[0] == ev[i as int]);
                    return Some(r);
                }
                proof {
                    lemma_entries_get_step(ev, i as int, key@);
                }
                i = i + 1;
            }
            None
        },
        _ => None,
    }
}

/// `value.as_str()`.
pub fn as_str(v: &JsonValue) -> (r: Option<&str>)
    ensures
        opt_str(r) == json_as_str(v@),
{
    match v {
        JsonValue::Str(s) => Some(s.as_str()),
        _ => None,
    }
}

/// `value.as_i64()`.
pub fn as_i64(v: &JsonValue) -> (r: Option<i64>)
    ensures
        r == json_as_i64(v@),
{
    match v {
        JsonValue::Int(i) => Some(*i),
        JsonValue::UInt(u) => if *u <= i64::MAX as u64 {
            Some(*u as i64)
        } else {
            None
        },
        _ => None,
    }
}

/// `value.as_bool()`.
pub fn as_bool(v: &JsonValue) -> (r: Option<bool>)
    ensures
        r == json_as_bool(v@),
{
    match v {
        JsonValue::Bool(b) => Some(*b),
        _ => None,
    }
}

/// Follows the object keys of `path` from `v`.
pub fn at<'a>(v: &'a JsonValue, path: &[&str]) -> (r: Option<&'a JsonValue>)
    ensures
        opt_json(r) == json_path(v@, path_view(path@)),
{
    let ghost pv = path_view(path@);
    let mut cur = v;
    let mut i: usize = 0;
    assert(pv.subrange(0, pv.len() as int) =~= pv);
    while i < path.len()
        invariant
            pv == path_view(path@),
            pv.len() == path@.len(),
            i <= path.len(),
            json_path(v@, pv) == json_path(cur@, pv.subrange(i as int, pv.len() as int)),
        decreases path.len() - i,
    {
        let ghost rest = pv.subrange(i as int, pv.len() as int);
        assert(rest[0] == path@[i as int]@);
        assert(rest.drop_first() =~= pv.subrange(i + 1, pv.len() as int));
        match get(cur, path[i]) {
            Some(next) => {
                cur = next;
            },
            None => {
                return None;
            },
        }
        i = i + 1;
    }
    Some(cur)
}

/// The string at `path`, if there is one.
pub fn str_at<'a>(v: &'a JsonValue, path: &[&str]) -> (r: Option<&'a str>)
    ensures
        opt_str(r) == match json_path(v@, path_view(path@)) {
            Some(x) => json_as_str(x),
            None => None,
        },
{
    match at(v, path) {
        Some(x) => as_str(x),
        None => None,
    }
}

/// The string at the first of `paths` that holds one.
pub fn first_str_at<'a>(v: &'a JsonValue, paths: &[&[&str]]) -> (r: Option<&'a str>)
    ensures
        opt_str(r) == first_str(v@, paths_view(paths@)),
{
    let ghost pv = paths_view(paths@);
    let mut i: usize = 0;
    assert(pv.subrange(0, pv.len() as int) =~= pv);
    while i < paths.len()
        invariant
            pv == paths_view(paths@),
            pv.len() == paths@.len(),
            i <= paths.len(),
            first_str(v@, pv) == first_str(v@, pv.subrange(i as int, pv.len() as int)),
        decreases paths.len() - i,
    {
        let ghost rest = pv.subrange(i as int, pv.len() as int);
        assert(rest[0] == path_view(paths@[i as int]@));
        assert(rest.drop_first() =~= pv.subrange(i + 1, pv.len() as int));
        match str_at(v, paths[i]) {
            Some(s) => {
                return Some(s);
            },
            None => {},
        }
        i = i + 1;
    }
    None
}

/// The integer at the first of `paths` that holds one.
pub fn first_i64_at(v: &JsonValue, paths: &[&[&str]]) -> (r: Option<i64>)
    ensures
        r == first_i64(v@, paths_view(paths@)),
{
    let ghost pv = paths_view(paths@);
    let mut i: usize = 0;
    assert(pv.subrange(0, pv.len() as int) =~= pv);
    while i < paths.len()
        invariant
            pv == paths_view(paths@),
            pv.len() == paths@.len(),
            i <= paths.len(),
            first_i64(v@, pv) == first_i64(v@, pv.subrange(i as int, pv.len() as int)),
        decreases paths.len() - i,
    {
        let ghost rest = pv.subrange(i as int, pv.len() as int);
        assert(rest[0] == path_view(paths@[i as int]@));
        assert(rest.drop_first() =~= pv.subrange(i + 1, pv.len() as int));
        match at(v, paths[i]) {
            Some(x) => match as_i64(x) {
                Some(n) => {
                    return Some(n);
                },
                None => {},
            },
            None => {},
        }
        i = i + 1;
    }
    None
}

/// The boolean at the first of `paths` that holds one.
pub fn first_bool_at(v: &JsonValue, paths: &[&[&str]]) -> (r: Option<bool>)
    ensures
        r == first_bool(v@, paths_view(paths@)),
{
    let ghost pv = paths_view(paths@);
    let mut i: usize = 0;
    assert(pv.subrange(0, pv.len() as int) =~= pv);
    while i < paths.len()
        invariant
            pv == paths_view(paths@),
            pv.len() == paths@.len(),
            i <= paths.len(),
            first_bool(v@, pv) == first_bool(v@, pv.subrange(i as int, pv.len() as int)),
        decreases paths.len() - i,
    {
        let ghost rest = pv.subrange(i as int, pv.len() as int);
        assert(rest[0] == path_view(paths@[i as int]@));
        assert(rest.drop_first() =~= pv.subrange(i + 1, pv.len() as int));
        match at(v, paths[i]) {
            Some(x) => match as_bool(x) {
                Some(n) => {
                    return Some(n);
                },
                None => {},
            },
            None => {},
        }
        i = i + 1;
    }
    None
}

/// A deep copy of a JSON value.
pub fn json_clone(v: &JsonValue) -> (r: JsonValue)
    ensures
        r@ == v@,
    decreases v,
{
    match v {
        JsonValue::Null => JsonValue::Null,
        JsonValue::Bool(b) => JsonValue::Bool(*b),
        JsonValue::Int(i) => JsonValue::Int(*i),
        JsonValue::UInt(u) => JsonValue::UInt(*u),
        JsonValue::Float(t) => JsonValue::Float(t.clone()),
        JsonValue::Str(s) => JsonValue::Str(s.clone()),
        JsonValue::Array(a) => {
            let mut out: Vec<JsonValue> = Vec::new();
            let mut i: usize = 0;
            while i < a.len()
                invariant
                    *v == JsonValue::Array(*a),
                    i <= a.len(),
                    out@.len() == i,
                    forall|j: int| 0 <= j < i ==> json_view(#[trigger] out@[j]) == json_view(a@[j]),
                decreases a.len() - i,
            {
                assert(decreases_to!(*v => (*v)->Array_0));
                assert(decreases_to!(*a => a[i as int]));
                let c = json_clone(&a[i]);
                out.push(c);
                i = i + 1;
            }
            let r = JsonValue::Array(out);
            assert(json_view(r) =~= json_view(*v)) by {
                match (json_view(r), json_view(*v)) {
                    (Json::Array(x), Json::Array(y)) => {
                        assert(x =~= y);
                    },
                    _ => {},
                }
            }
            r
        },
        JsonValue::Object(o) => {
            let mut out: Vec<(String, JsonValue)> = Vec::new();
            let mut i: usize = 0;
            while i < o.len()
                invariant
                    *v == JsonValue::Object(*o),
                    i <= o.len(),
                    out@.len() == i,
                    forall|j: int|
                        0 <= j < i ==> (#[trigger] out@[j]).0@ == o@[j].0@ && json_view(out@[j].1)
                            == json_view(o@[j].1),
                decreases o.len() - i,
            {
                assert(decreases_to!(*v => (*v)->Object_0));
                assert(decreases_to!(*o => o[i as int]));
                assert(decreases_to!(o[i as int] => o[i as int].1));
                let k = o[i].0.clone();
                let c = json_clone(&o[i].1);
                out.push((k, c));
                i = i + 1;
            }
            let r = JsonValue::Object(out);
            assert(json_view(r) =~= json_view(*v)) by {
                match (json_view(r), json_view(*v)) {
                    (Json::Object(x), Json::Object(y)) => {
                        assert(x =~= y);
                    },
                    _ => {},
                }
            }
            r
        },
    }
}

/// Structural equality of two JSON values (`serde_json::Value`'s `==` on the same documents).
pub fn json_eq(a: &JsonValue, b: &JsonValue) -> (r: bool)
    ensures
        r == (a@ == b@),
    decreases a,
{
    match (a, b) {
        (JsonValue::Null, JsonValue::Null) => true,
        (JsonValue::Bool(x), JsonValue::Bool(y)) => *x == *y,
        (JsonValue::Int(x), JsonValue::Int(y)) => *x == *y,
        (JsonValue::UInt(x), JsonValue::UInt(y)) => *x == *y,
        (JsonValue::Float(x), JsonValue::Float(y)) => str_eq(x.as_str(), y.as_str()),
        (JsonValue::Str(x), JsonValue::Str(y)) => str_eq(x.as_str(), y.as_str()),
        (JsonValue::Array(x), JsonValue::Array(y)) => {
            let ghost xv = match a@ {
                Json::Array(s) => s,
                _ => Seq::empty(),
            };
            let ghost yv = match b@ {
                Json::Array(s) => s,
                _ => Seq::empty(),
            };
            if x.len() != y.len() {
                assert(xv.len() != yv.len());
                return false;
            }
            let mut i: usize = 0;
            while i < x.len()
                invariant
                    *a == JsonValue::Array(*x),
                    *b == JsonValue::Array(*y),
                    a@ == Json::Array(xv),
                    b@ == Json::Array(yv),
                    x.len() == y.len(),
                    xv.len() == x.len(),
                    yv.len() == y.len(),
                    forall|j: int| 0 <= j < x.len() ==> #[trigger] xv[j] == json_view(x@[j]),
                    forall|j: int| 0 <= j < y.len() ==> #[trigger] yv[j] == json_view(y@[j]),
                    i <= x.len(),
                    forall|j: int| 0 <= j < i ==> xv[j] == yv[j],
                decreases x.len() - i,
            {
                assert(decreases_to!(*a => (*a)->Array_0));
                assert(decreases_to!(*x => x[i as int]));
                assert(xv[i as int] == json_view(x@[i as int]));
                assert(yv[i as int] == json_view(y@[i as int]));
                if !json_eq(&x[i], &y[i]) {
                    return false;
                }
                i = i + 1;
            }
            assert(xv =~= yv);
            true
        },
        (JsonValue::Object(x), JsonValue::Object(y)) => {
            let ghost xv = match a@ {
                Json::Object(s) => s,
                _ => Seq::empty(),
            };
            let ghost yv = match b@ {
                Json::Object(s) => s,
                _ => Seq::empty(),
            };
            if x.len() != y.len() {
                assert(xv.len() != yv.len());
                return false;
            }
            let mut i: usize = 0;
            while i < x.len()
                invariant
                    *a == JsonValue::Object(*x),
                    *b == JsonValue::Object(*y),
                    a@ == Json::Object(xv),
                    b@ == Json::Object(yv),
                    x.len() == y.len(),
                    xv.len() == x.len(),
                    yv.len() == y.len(),
                    forall|j: int|
                        0 <= j < x.len() ==> #[trigger] xv[j] == (x@[j].0@, json_view(x@[j].1)),
                    forall|j: int|
                        0 <= j < y.len() ==> #[trigger] yv[j] == (y@[j].0@, json_view(y@[j].1)),
                    i <= x.len(),
                    forall|j: int| 0 <= j < i ==> xv[j] == yv[j],
                decreases x.len() - i,
            {
                assert(decreases_to!(*a => (*a)->Object_0));
                assert(decreases_to!(*x => x[i as int]));
                assert(decreases_to!(x[i as int] => x[i as int].1));
                assert(xv[i as int] == (x@[i as int].0@, json_view(x@[i as int].1)));
                assert(yv[i as int] == (y@[i as int].0@, json_view(y@[i as int].1)));
                if !str_eq(x[i].0.as_str(), y[i].0.as_str()) {
                    return false;
                }
                if !json_eq(&x[i].1, &y[i].1) {
                    return false;
                }
                i = i + 1;
            }
            assert(xv =~= yv);
            true
        },
        _ => false,
    }
}

pub open spec fn entries_view(o: Seq<(String, JsonValue)>) -> Seq<(Seq<char>, Json)> {
    Seq::new(o.len(), |i: int| (o[i].0@, json_view(o[i].1)))
}

pub proof fn lemma_object_view(o: Vec<(String, JsonValue)>)
    ensures
        json_view(JsonValue::Object(o)) == Json::Object(entries_view(o@)),
{
    match json_view(JsonValue::Object(o)) {
        Json::Object(e) => {
            assert(e =~= entries_view(o@));
        },
        _ => {},
    }
}

/// `{k1: v1}`.
pub fn obj1(k1: &str, v1: JsonValue) -> (r: JsonValue)
    ensures
        r@ == Json::Object(seq![(k1@, v1@)]),
{
    let ghost a = v1@;
    let mut entries = Vec::new();
    entries.push((k1.to_owned(), v1));
    proof {
        lemma_object_view(entries);
        assert(entries_view(entries@) =~= seq![(k1@, a)]);
    }
    JsonValue::Object(entries)
}

/// `{k1: v1, k2: v2}`.
pub fn obj2(k1: &str, v1: JsonValue, k2: &str, v2: JsonValue) -> (r: JsonValue)
    ensures
        r@ == Json::Object(seq![(k1@, v1@), (k2@, v2@)]),
{
    let ghost a = v1@;
    let ghost b = v2@;
    let mut entries = Vec::new();
    entries.push((k1.to_owned(), v1));
    entries.push((k2.to_owned(), v2));
    proof {
        lemma_object_view(entries);
        assert(entries_view(entries@) =~= seq![(k1@, a), (k2@, b)]);
    }
    JsonValue::Object(entries)
}

/// `{k1: v1, k2: v2, k3: v3}`.
pub fn obj3(k1: &str, v1: JsonValue, k2: &str, v2: JsonValue, k3: &str, v3: JsonValue) -> (r: JsonValue)
    ensures
        r@ == Json::Object(seq![(k1@, v1@), (k2@, v2@), (k3@, v3@)]),
{
    let ghost a = v1@;
    let ghost b = v2@;
    let ghost c = v3@;
    let mut entries = Vec::new();
    entries.push((k1.to_owned(), v1));
    entries.push((k2.to_owned(), v2));
    entries.push((k3.to_owned(), v3));
    proof {
        lemma_object_view(entries);
        assert(entries_view(entries@) =~= seq![(k1@, a), (k2@, b), (k3@, c)]);
    }
    JsonValue::Object(entries)
}

/// A JSON string.
pub fn jstr(s: &str) -> (r: JsonValue)
    ensures
        r@ == Json::Str(s@),
{
    JsonValue::Str(s.to_owned())
}

/// The views of a sequence of JSON values.
pub open spec fn values_view(a: Seq<JsonValue>) -> Seq<Json> {
    a.map_values(|x: JsonValue| x@)
}

/// `value.as_array()`.
pub fn as_array(v: &JsonValue) -> (r: Option<&Vec<JsonValue>>)
    ensures
        match r {
            Some(a) => json_as_array(v@) == Some(values_view(a@)),
            None => json_as_array(v@) is None,
        },
{
    match v {
        JsonValue::Array(a) => {
            proof {
                assert(json_as_array(v@).unwrap() =~= values_view(a@));
            }
            Some(a)
        },
        _ => None,
    }
}

/// A lower-case hexadecimal digit.
pub open spec fn hex_digit(d: nat) -> char {
    if d < 10 {
        (('0' as nat) + d) as char
    } else {
        (('a' as nat) + d - 10) as char
    }
}

/// How a character is written inside a JSON string: quote, backslash and control
/// characters escaped, everything else as is.
pub open spec fn escape_char(c: char) -> Seq<char> {
    if c == '"' {
        seq!['\\', '"']
    } else if c == '\\' {
        seq!['\\', '\\']
    } else if c == '\n' {
        seq!['\\', 'n']
    } else if c == '\r' {
        seq!['\\', 'r']
    } else if c == '\t' {
        seq!['\\', 't']
    } else if (c as u32) == 8 {
        seq!['\\', 'b']
    } else if (c as u32) == 12 {
        seq!['\\', 'f']
    } else if (c as u32) < 32 {
        seq!['\\', 'u', '0', '0', hex_digit((c as nat) / 16), hex_digit((c as nat) % 16)]
    } else {
        seq![c]
    }
}

/// The escaped characters of a string.
pub open spec fn escaped(s: Seq<char>) -> Seq<char>
    decreases s.len(),
{
    if s.len() == 0 {
        Seq::empty()
    } else {
        escaped(s.drop_last()) + escape_char(s.last())
    }
}

/// A string as a JSON string literal.
pub open spec fn string_text(s: Seq<char>) -> Seq<char> {
    seq!['"'] + escaped(s) + seq!['"']
}

/// The compact JSON text of a value (`Value::to_string`): no spaces, object members in
/// their order, numbers in their decimal or recorded text.
pub open spec fn json_text(v: Json) -> Seq<char>
    decreases v, 1nat,
{
    match v {
        Json::Null => "null"@,
        Json::Bool(b) => if b {
            "true"@
        } else {
            "false"@
        },
        Json::Int(i) => int_decimal(i as int),
        Json::UInt(u) => nat_decimal(u as nat),
        Json::Float(t) => t,
        Json::Str(s) => string_text(s),
        Json::Array(a) => seq!['['] + items_text(a) + seq![']'],
        Json::Object(e) => seq!['{'] + members_text(e) + seq!['}'],
    }
}

/// Array items written with `,` between them.
pub open spec fn items_text(a: Seq<Json>) -> Seq<char>
    decreases a, 0nat,
{
    if a.len() == 0 {
        Seq::empty()
    } else if a.len() == 1 {
        json_text(a[0])
    } else {
        proof {
            assert(decreases_to!(a => a.subrange(0, a.len() - 1)));
        }
        items_text(a.subrange(0, a.len() - 1)) + seq![','] + json_text(a[a.len() - 1])
    }
}

/// Object members written as `"key":value` with `,` between them.
pub open spec fn members_text(e: Seq<(Seq<char>, Json)>) -> Seq<char>
    decreases e, 0nat,
{
    if e.len() == 0 {
        Seq::empty()
    } else if e.len() == 1 {
        string_text(e[0].0) + seq![':'] + json_text(e[0].1)
    } else {
        proof {
            assert(decreases_to!(e => e.subrange(0, e.len() - 1)));
            assert(decreases_to!(e => e[e.len() - 1]));
        }
        members_text(e.subrange(0, e.len() - 1)) + seq![','] + string_text(e[e.len() - 1].0) + seq![':']
            + json_text(e[e.len() - 1].1)
    }
}

fn hex_digit_exec(d: u32) -> (c: char)
    requires
        d < 16,
    ensures
        c == hex_digit(d as nat),
{
    if d < 10 {
        proof {
            assert(('0' as nat) + d <= 0x39);
        }
        char_from_ascii(48 + d)
    } else {
        char_from_ascii(97 + d - 10)
    }
}

fn char_from_ascii(u: u32) -> (c: char)
    requires
        u < 128,
    ensures
        c == u as char,
{
    let b = u as u8;
    b as char
}

fn push_escaped(out: &mut String, c: char)
    ensures
        final(out)@ == old(out)@ + escape_char(c),
{
    let u = c as u32;
    if c == '"' {
        push_char(out, '\\');
        push_char(out, '"');
    } else if c == '\\' {
        push_char(out, '\\');
        push_char(out, '\\');
    } else if c == '\n' {
        push_char(out, '\\');
        push_char(out, 'n');
    } else if c == '\r' {
        push_char(out, '\\');
        push_char(out, 'r');
    } else if c == '\t' {
        push_char(out, '\\');
        push_char(out, 't');
    } else if u == 8 {
        push_char(out, '\\');
        push_char(out, 'b');
    } else if u == 12 {
        push_char(out, '\\');
        push_char(out, 'f');
    } else if u < 32 {
        push_char(out, '\\');
        push_char(out, 'u');
        push_char(out, '0');
        push_char(out, '0');
        push_char(out, hex_digit_exec(u / 16));
        push_char(out, hex_digit_exec(u % 16));
    } else {
        push_char(out, c);
    }
    proof {
        assert(final(out)@ =~= old(out)@ + escape_char(c));
    }
}

/// Appends `s` as a JSON string literal.
fn push_string_text(out: &mut String, s: &str)
    ensures
        final(out)@ == old(out)@ + string_text(s@),
{
    let ghost start = out@;
    push_char(out, '"');
    let n = s.unicode_len();
    let mut i: usize = 0;
    proof {
        assert(s@.subrange(0, 0) =~= Seq::<char>::empty());
        assert(out@ =~= start + seq!['"'] + escaped(s@.subrange(0, 0)));
    }
    while i < n
        invariant
            n == s@.len(),
            i <= n,
            out@ == start + seq!['"'] + escaped(s@.subrange(0, i as int)),
        decreases n - i,
    {
        let c = s.get_char(i);
        proof {
            assert(s@.subrange(0, i + 1).drop_last() =~= s@.subrange(0, i as int));
            assert(s@.subrange(0, i + 1).last() == c);
        }
        push_escaped(out, c);
        proof {
            assert(out@ =~= start + seq!['"'] + escaped(s@.subrange(0, i + 1)));
        }
        i = i + 1;
    }
    push_char(out, '"');
    proof {
        assert(s@.subrange(0, n as int) =~= s@);
        assert(out@ =~= start + string_text(s@));
    }
}

/// Appends the compact JSON text of `v`.
pub fn push_json_text(out: &mut String, v: &JsonValue)
    ensures
        final(out)@ == old(out)@ + json_text(v@),
    decreases v,
{
    let ghost start = out@;
    match v {
        JsonValue::Null => {
            out.append("null");
        },
        JsonValue::Bool(b) => {
            if *b {
                out.append("true");
            } else {
                out.append("false");
            }
        },
        JsonValue::Int(i) => {
            let t = i64_decimal(*i);
            out.append(t.as_str());
        },
        JsonValue::UInt(u) => {
            let t = u64_decimal(*u);
            out.append(t.as_str());
        },
        JsonValue::Float(t) => {
            out.append(t.as_str());
        },
        JsonValue::Str(s) => {
            push_string_text(out, s.as_str());
        },
        JsonValue::Array(a) => {
            let ghost av = match v@ {
                Json::Array(x) => x,
                _ => Seq::empty(),
            };
            assert(av.len() == a@.len());
            push_char(out, '[');
            let mut i: usize = 0;
            proof {
                assert(av.subrange(0, 0).len() == 0);
            }
            while i < a.len()
                invariant
                    *v == JsonValue::Array(*a),
                    v@ == Json::Array(av),
                    av.len() == a@.len(),
                    forall|j: int| 0 <= j < a@.len() ==> av[j] == #[trigger] a@[j]@,
                    i <= a.len(),
                    out@ == start + seq!['['] + items_text(av.subrange(0, i as int)),
                decreases a.len() - i,
            {
                assert(decreases_to!(*v => (*v)->Array_0));
                assert(decreases_to!(*a => a[i as int]));
                let ghost before = out@;
                if i > 0 {
                    push_char(out, ',');
                }
                push_json_text(out, &a[i]);
                proof {
                    let sub = av.subrange(0, i + 1);
                    assert(sub.subrange(0, i as int) =~= av.subrange(0, i as int));
                    assert(sub[i as int] == a@[i as int]@);
                    if i == 0 {
                        assert(sub.len() == 1);
                    }
                    assert(out@ =~= start + seq!['['] + items_text(sub));
                }
                i = i + 1;
            }
            push_char(out, ']');
            proof {
                assert(av.subrange(0, a@.len() as int) =~= av);
                assert(out@ =~= start + json_text(v@));
            }
        },
        JsonValue::Object(o) => {
            let ghost ev = match v@ {
                Json::Object(x) => x,
                _ => Seq::empty(),
            };
            assert(ev.len() == o@.len());
            push_char(out, '{');
            let mut i: usize = 0;
            proof {
                assert(ev.subrange(0, 0).len() == 0);
            }
            while i < o.len()
                invariant
                    *v == JsonValue::Object(*o),
                    v@ == Json::Object(ev),
                    ev.len() == o@.len(),
                    forall|j: int| 0 <= j < o@.len() ==> ev[j] == (#[trigger] o@[j].0@, o@[j].1@),
                    i <= o.len(),
                    out@ == start + seq!['{'] + members_text(ev.subrange(0, i as int)),
                decreases o.len() - i,
            {
                assert(decreases_to!(*v => (*v)->Object_0));
                assert(decreases_to!(*o => o[i as int]));
                assert(decreases_to!(o[i as int] => o[i as int].1));
                if i > 0 {
                    push_char(out, ',');
                }
                push_string_text(out, o[i].0.as_str());
                push_char(out, ':');
                push_json_text(out, &o[i].1);
                proof {
                    let sub = ev.subrange(0, i + 1);
                    assert(sub.subrange(0, i as int) =~= ev.subrange(0, i as int));
                    assert(sub[i as int] == (o@[i as int].0@, o@[i as int].1@));
                    if i == 0 {
                        assert(sub.len() == 1);
                    }
                    assert(out@ =~= start + seq!['{'] + members_text(sub));
                }
                i = i + 1;
            }
            push_char(out, '}');
            proof {
                assert(ev.subrange(0, o@.len() as int) =~= ev);
                assert(out@ =~= start + json_text(v@));
            }
        },
    }
}

/// The compact JSON text of `v`.
pub fn json_to_text(v: &JsonValue) -> (r: String)
    ensures
        r@ == json_text(v@),
{
    let mut out = String::new();
    push_json_text(&mut out, v);
    proof {
        assert(out@ =~= json_text(v@));
    }
    out
}

/// `value.as_object()`.
pub open spec fn json_as_object(v: Json) -> Option<Seq<(Seq<char>, Json)>> {
    match v {
        Json::Object(e) => Some(e),
        _ => None,
    }
}

/// `value.as_object()`.
pub fn as_object(v: &JsonValue) -> (r: Option<&Vec<(String, JsonValue)>>)
    ensures
        match r {
            Some(o) => json_as_object(v@) == Some(entries_view(o@)),
            None => json_as_object(v@) is None,
        },
{
    match v {
        JsonValue::Object(o) => {
            proof {
                lemma_object_view(*o);
            }
            Some(o)
        },
        _ => None,
    }
}

} // verus!
