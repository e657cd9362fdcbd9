//! The library's own model of a JSON document.
//!
//! Configs, task cards, run records and status payloads are JSON documents.
//! The library reads and builds them through `Json`; its mathematical view
//! is `JVal`. The application converts to and from its JSON parser's values
//! at the edge.

use vstd::prelude::*;
use crate::strings::{opt_view, str_eq, to_owned};

verus! {

/// A JSON value. Object members keep their order; a lookup finds the first
/// member with the key, and an insert replaces that member or appends one.
pub enum Json {
    Null,
    Bool(bool),
    /// A number that fits in `i64`.
    Int(i64),
    /// A non-negative integer above `i64::MAX`.
    UInt(u64),
    /// Any other number (fractional or out of range), by its JSON text.
    Float(String),
    Str(String),
    Array(Vec<Json>),
    Object(Vec<(String, Json)>),
}

/// The mathematical value of a `Json`.
pub enum JVal {
    Null,
    Bool(bool),
    Num(int),
    Float(Seq<char>),
    Str(Seq<char>),
    Array(Seq<JVal>),
    Object(Seq<(Seq<char>, JVal)>),
}

pub open spec fn jview(j: Json) -> JVal
    decreases j,
{
    match j {
        Json::Null => JVal::Null,
        Json::Bool(b) => JVal::Bool(b),
        Json::Int(n) => JVal::Num(n as int),
        Json::UInt(n) => JVal::Num(n as int),
        Json::Float(s) => JVal::Float(s@),
        Json::Str(s) => JVal::Str(s@),
        Json::Array(v) => {
            proof {
                assert forall|i: int| 0 <= i < v@.len() implies decreases_to!(j => v@[i]) by {
                    assert(decreases_to!(j => v));
                    assert(decreases_to!(v => v@));
                    assert(decreases_to!(v@ => v@[i]));
                }
            }
            JVal::Array(
                Seq::new(
                    v@.len(),
                    |i: int|
                        if 0 <= i < v@.len() {
                            jview(v@[i])
                        } else {
                            JVal::Null
                        },
                ),
            )
        },
        Json::Object(m) => {
            proof {
                assert forall|i: int| 0 <= i < m@.len() implies decreases_to!(j => m@[i].1) by {
                    assert(decreases_to!(j => m));
                    assert(decreases_to!(m => m@));
                    assert(decreases_to!(m@ => m@[i]));
                    assert(decreases_to!(m@[i] => m@[i].1));
                }
            }
            JVal::Object(
                Seq::new(
                    m@.len(),
                    |i: int|
                        if 0 <= i < m@.len() {
                            (m@[i].0@, jview(m@[i].1))
                        } else {
                            (Seq::empty(), JVal::Null)
                        },
                ),
            )
        },
    }
}

/// The views of an object's members.
pub open spec fn members_view(m: Seq<(String, Json)>) -> Seq<(Seq<char>, JVal)> {
    Seq::new(m.len(), |i: int| (m[i].0@, jview(m[i].1)))
}

pub proof fn lemma_object_view(m: Vec<(String, Json)>)
    ensures
        jview(Json::Object(m)) == JVal::Object(members_view(m@)),
{
    assert(jview(Json::Object(m))->Object_0 =~= members_view(m@));
}

pub proof fn lemma_array_view(v: Vec<Json>)
    ensures
        jview(Json::Array(v)) == JVal::Array(v@.map_values(|x: Json| jview(x))),
{
    assert(jview(Json::Array(v))->Array_0 =~= v@.map_values(|x: Json| jview(x)));
}

/// Position of the first member named `key`, or -1.
pub open spec fn jmember_index(m: Seq<(Seq<char>, JVal)>, key: Seq<char>) -> int
    decreases m.len(),
{
    if m.len() == 0 {
        -1
    } else if m[0].0 == key {
        0
    } else {
        let r = jmember_index(m.drop_first(), key);
        if r < 0 {
            -1
        } else {
            r + 1
        }
    }
}

/// The value of the first member named `key` of an object (`Value::get`).
pub open spec fn jget(j: JVal, key: Seq<char>) -> Option<JVal> {
    match j {
        JVal::Object(m) => {
            let i = jmember_index(m, key);
            if i < 0 {
                None
            } else {
                Some(m[i].1)
            }
        },
        _ => None,
    }
}

/// Follows `keys` through nested objects.
pub open spec fn jget_path(j: JVal, keys: Seq<Seq<char>>) -> Option<JVal>
    decreases keys.len(),
{
    if keys.len() == 0 {
        Some(j)
    } else {
        match jget(j, keys[0]) {
            Some(v) => jget_path(v, keys.drop_first()),
            None => None,
        }
    }
}

pub open spec fn jas_str(j: JVal) -> Option<Seq<char>> {
    match j {
        JVal::Str(s) => Some(s),
        _ => None,
    }
}

pub open spec fn jas_bool(j: JVal) -> Option<bool> {
    match j {
        JVal::Bool(b) => Some(b),
        _ => None,
    }
}

pub open spec fn jas_i64(j: JVal) -> Option<int> {
    match j {
        JVal::Num(n) => if i64::MIN <= n <= i64::MAX {
            Some(n)
        } else {
            None
        },
        _ => None,
    }
}

pub open spec fn jas_u64(j: JVal) -> Option<int> {
    match j {
        JVal::Num(n) => if 0 <= n <= u64::MAX {
            Some(n)
        } else {
            None
        },
        _ => None,
    }
}

/// `Option::and_then` of a lookup result with `as_str`.
pub open spec fn opt_str(o: Option<JVal>) -> Option<Seq<char>> {
    match o {
        Some(v) => jas_str(v),
        None => None,
    }
}

pub open spec fn opt_bool(o: Option<JVal>) -> Option<bool> {
    match o {
        Some(v) => jas_bool(v),
        None => None,
    }
}

pub open spec fn opt_u64(o: Option<JVal>) -> Option<int> {
    match o {
        Some(v) => jas_u64(v),
        None => None,
    }
}

pub open spec fn opt_i64(o: Option<JVal>) -> Option<int> {
    match o {
        Some(v) => jas_i64(v),
        None => None,
    }
}

/// A string field of an object.
pub open spec fn jstr_field(j: JVal, key: Seq<char>) -> Option<Seq<char>> {
    opt_str(jget(j, key))
}

/// A string at a nested path.
pub open spec fn jstr_at(j: JVal, keys: Seq<Seq<char>>) -> Option<Seq<char>> {
    opt_str(jget_path(j, keys))
}

/// Members after inserting `key: v` (replace the first match, or append).
pub open spec fn jinsert_member(m: Seq<(Seq<char>, JVal)>, k: Seq<char>, v: JVal) -> Seq<(Seq<char>, JVal)> {
    let i = jmember_index(m, k);
    if i < 0 {
        m.push((k, v))
    } else {
        m.update(i, (k, v))
    }
}

/// `Map::insert` on an object; other values are left as they are.
pub open spec fn jinsert(j: JVal, k: Seq<char>, v: JVal) -> JVal {
    match j {
        JVal::Object(m) => JVal::Object(jinsert_member(m, k, v)),
        _ => j,
    }
}

pub proof fn lemma_jmember_index_bounds(m: Seq<(Seq<char>, JVal)>, key: Seq<char>)
    ensures
        -1 <= jmember_index(m, key) < m.len(),
        jmember_index(m, key) >= 0 ==> m[jmember_index(m, key)].0 == key,
        jmember_index(m, key) < 0 ==> forall|k: int| 0 <= k < m.len() ==> m[k].0 != key,
        jmember_index(m, key) >= 0 ==> forall|k: int|
            0 <= k < jmember_index(m, key) ==> m[k].0 != key,
    decreases m.len(),
{
    if m.len() > 0 {
        lemma_jmember_index_bounds(m.drop_first(), key);
        assert forall|k: int| 1 <= k < m.len() implies m[k] == m.drop_first()[k - 1] by {}
    }
}

pub proof fn lemma_jmember_index_scan(m: Seq<(Seq<char>, JVal)>, key: Seq<char>, i: int)
    requires
        0 <= i <= m.len(),
        forall|k: int| 0 <= k < i ==> m[k].0 != key,
    ensures
        i < m.len() && m[i].0 == key ==> jmember_index(m, key) == i,
        i == m.len() ==> jmember_index(m, key) == -1,
    decreases i,
{
    if i > 0 {
        assert forall|k: int| 0 <= k < i - 1 implies m.drop_first()[k].0 != key by {
            assert(m.drop_first()[k] == m[k + 1]);
        }
        lemma_jmember_index_scan(m.drop_first(), key, i - 1);
        if i < m.len() {
            assert(m.drop_first()[i - 1] == m[i]);
        }
    }
}

/// Lookup positions only depend on the member names.
pub proof fn lemma_jmember_index_same_keys(m1: Seq<(Seq<char>, JVal)>, m2: Seq<(Seq<char>, JVal)>, key: Seq<char>)
    requires
        m1.len() == m2.len(),
        forall|i: int| 0 <= i < m1.len() ==> m1[i].0 == m2[i].0,
    ensures
        jmember_index(m1, key) == jmember_index(m2, key),
    decreases m1.len(),
{
    if m1.len() > 0 {
        assert forall|i: int| 0 <= i < m1.len() - 1 implies m1.drop_first()[i].0 == m2.drop_first()[i].0 by {
            assert(m1.drop_first()[i] == m1[i + 1]);
            assert(m2.drop_first()[i] == m2[i + 1]);
        }
        lemma_jmember_index_same_keys(m1.drop_first(), m2.drop_first(), key);
    }
}

/// Finds the first member named `key`.
pub fn find_member(m: &Vec<(String, Json)>, key: &str) -> (r: Option<usize>)
    ensures
        match r {
            Some(i) => i < m.len() && jmember_index(members_view(m@), key@) == i,
            None => jmember_index(members_view(m@), key@) == -1,
        },
{
    let ghost mv = members_view(m@);
    let mut i: usize = 0;
    while i < m.len()
        invariant
            i <= m.len(),
            mv == members_view(m@),
            forall|k: int| 0 <= k < i ==> mv[k].0 != key@,
        decreases m.len() - i,
    {
        if str_eq(m[i].0.as_str(), key) {
            proof {
                lemma_jmember_index_scan(mv, key@, i as int);
            }
            return Some(i);
        }
        i = i + 1;
    }
    proof {
        lemma_jmember_index_scan(mv, key@, i as int);
    }
    None
}

impl Json {
    /// `value.get(key)`.
    pub fn get(&self, key: &str) -> (r: Option<&Json>)
        ensures
            match r {
                Some(v) => jget(jview(*self), key@) == Some(jview(*v)),
                None => jget(jview(*self), key@) is None,
            },
    {
        match self {
            Json::Object(m) => {
                proof {
                    lemma_object_view(*m);
                }
                match find_member(m, key) {
                    Some(i) => Some(&m[i].1),
                    None => None,
                }
            },
            _ => None,
        }
    }

    /// `value.as_str()`.
    pub fn as_str(&self) -> (r: Option<&str>)
        ensures
            opt_view(r) == jas_str(jview(*self)),
    {
        match self {
            Json::Str(s) => Some(s.as_str()),
            _ => None,
        }
    }

    pub fn as_bool(&self) -> (r: Option<bool>)
        ensures
            r == jas_bool(jview(*self)),
    {
        match self {
            Json::Bool(b) => Some(*b),
            _ => None,
        }
    }

    pub fn as_i64(&self) -> (r: Option<i64>)
        ensures
            match r {
                Some(n) => jas_i64(jview(*self)) == Some(n as int),
                None => jas_i64(jview(*self)) is None,
            },
    {
        match self {
            Json::Int(n) => Some(*n),
            Json::UInt(n) => if *n <= 0x7fff_ffff_ffff_ffffu64 {
                Some(*n as i64)
            } else {
                None
            },
            _ => None,
        }
    }

    pub fn as_u64(&self) -> (r: Option<u64>)
        ensures
            match r {
                Some(n) => jas_u64(jview(*self)) == Some(n as int),
                None => jas_u64(jview(*self)) is None,
            },
    {
        match self {
            Json::Int(n) => if *n >= 0 {
                Some(*n as u64)
            } else {
                None
            },
            Json::UInt(n) => Some(*n),
            _ => None,
        }
    }

    pub fn is_null(&self) -> (r: bool)
        ensures
            r == (jview(*self) is Null),
    {
        match self {
            Json::Null => true,
            _ => false,
        }
    }

    pub fn is_object(&self) -> (r: bool)
        ensures
            r == (jview(*self) is Object),
    {
        match self {
            Json::Object(_) => true,
            _ => false,
        }
    }

    pub fn is_array(&self) -> (r: bool)
        ensures
            r == (jview(*self) is Array),
    {
        match self {
            Json::Array(_) => true,
            _ => false,
        }
    }

    /// The string field `key` of this object.
    pub fn str_field(&self, key: &str) -> (r: Option<&str>)
        ensures
            opt_view(r) == jstr_field(jview(*self), key@),
    {
        match self.get(key) {
            Some(v) => v.as_str(),
            None => None,
        }
    }

    /// The boolean field `key` of this object.
    pub fn bool_field(&self, key: &str) -> (r: Option<bool>)
        ensures
            r == opt_bool(jget(jview(*self), key@)),
    {
        match self.get(key) {
            Some(v) => v.as_bool(),
            None => None,
        }
    }

    /// The unsigned field `key` of this object.
    pub fn u64_field(&self, key: &str) -> (r: Option<u64>)
        ensures
            match r {
                Some(n) => opt_u64(jget(jview(*self), key@)) == Some(n as int),
                None => opt_u64(jget(jview(*self), key@)) is None,
            },
    {
        match self.get(key) {
            Some(v) => v.as_u64(),
            None => None,
        }
    }

    /// The signed field `key` of this object.
    pub fn i64_field(&self, key: &str) -> (r: Option<i64>)
        ensures
            match r {
                Some(n) => opt_i64(jget(jview(*self), key@)) == Some(n as int),
                None => opt_i64(jget(jview(*self), key@)) is None,
            },
    {
        match self.get(key) {
            Some(v) => v.as_i64(),
            None => None,
        }
    }

    /// The value at `keys` through nested objects.
    pub fn get_path(&self, keys: &[&str]) -> (r: Option<&Json>)
        ensures
            match r {
                Some(v) => jget_path(jview(*self), keys@.map_values(|k: &str| k@)) == Some(jview(*v)),
                None => jget_path(jview(*self), keys@.map_values(|k: &str| k@)) is None,
            },
    {
        let ghost ks = keys@.map_values(|k: &str| k@);
        let mut cur: &Json = self;
        let mut i: usize = 0;
        assert(ks.skip(0) == ks);
        while i < keys.len()
            invariant
                i <= keys.len(),
                ks == keys@.map_values(|k: &str| k@),
                jget_path(jview(*self), ks) == jget_path(jview(*cur), ks.skip(i as int)),
            decreases keys.len() - i,
        {
            assert(ks.skip(i as int)[0] == keys@[i as int]@);
            assert(ks.skip(i as int).drop_first() == ks.skip(i + 1));
            match cur.get(keys[i]) {
                Some(v) => {
                    cur = v;
                },
                None => {
                    return None;
                },
            }
            i = i + 1;
        }
        assert(ks.skip(i as int).len() == 0);
        Some(cur)
    }

    /// The string at `keys` through nested objects.
    pub fn str_at(&self, keys: &[&str]) -> (r: Option<&str>)
        ensures
            opt_view(r) == jstr_at(jview(*self), keys@.map_values(|k: &str| k@)),
    {
        match self.get_path(keys) {
            Some(v) => v.as_str(),
            None => None,
        }
    }

    /// Inserts `key: value` into this object (`Map::insert`); any other
    /// value is left as it is.
    pub fn insert(&mut self, key: &str, value: Json)
        ensures
            jview(*final(self)) == jinsert(jview(*old(self)), key@, jview(value)),
    {
        match self {
            Json::Object(m) => {
                let ghost old_m = *m;
                proof {
                    lemma_object_view(old_m);
                }
                match find_member(m, key) {
                    Some(i) => {
                        let mut slot = (to_owned(key), value);
                        m.set_and_swap(i, &mut slot);
                        proof {
                            assert(members_view(m@) =~= members_view(old_m@).update(
                                i as int,
                                (key@, jview(value)),
                            ));
                            lemma_object_view(*m);
                        }
                    },
                    None => {
                        m.push((to_owned(key), value));
                        proof {
                            assert(members_view(m@) =~= members_view(old_m@).push(
                                (key@, jview(value)),
                            ));
                            lemma_object_view(*m);
                        }
                    },
                }
            },
            _ => {},
        }
    }

    /// A deep copy.
    pub fn deep_clone(&self) -> (r: Json)
        ensures
            jview(r) == jview(*self),
        decreases self,
    {
        match self {
            Json::Null => Json::Null,
            Json::Bool(b) => Json::Bool(*b),
            Json::Int(n) => Json::Int(*n),
            Json::UInt(n) => Json::UInt(*n),
            Json::Float(s) => Json::Float(s.clone()),
            Json::Str(s) => Json::Str(s.clone()),
            Json::Array(v) => {
                let mut out: Vec<Json> = Vec::new();
                let mut i: usize = 0;
                while i < v.len()
                    invariant
                        i <= v.len(),
                        *self == Json::Array(*v),
                        out@.len() == i,
                        forall|k: int| 0 <= k < i ==> jview(#[trigger] out@[k]) == jview(v@[k]),
                    decreases v.len() - i,
                {
                    proof {
                        assert(decreases_to!(*self => (*self)->Array_0));
                        assert(decreases_to!((*self)->Array_0 => v@));
                        assert(decreases_to!(v@ => v@[i as int]));
                    }
                    let c = v[i].deep_clone();
                    out.push(c);
                    i = i + 1;
                }
                proof {
                    lemma_array_view(*v);
                    lemma_array_view(out);
                    assert(out@.map_values(|x: Json| jview(x)) =~= v@.map_values(|x: Json| jview(x)));
                }
                Json::Array(out)
            },
            Json::Object(m) => {
                let mut out: Vec<(String, Json)> = Vec::new();
                let mut i: usize = 0;
                while i < m.len()
                    invariant
                        i <= m.len(),
                        *self == Json::Object(*m),
                        out@.len() == i,
                        forall|k: int|
                            0 <= k < i ==> (#[trigger] out@[k]).0@ == m@[k].0@ && jview(out@[k].1)
                                == jview(m@[k].1),
                    decreases m.len() - i,
                {
                    proof {
                        assert(decreases_to!(*self => (*self)->Object_0));
                        assert(decreases_to!((*self)->Object_0 => m@));
                        assert(decreases_to!(m@ => m@[i as int]));
                        assert(decreases_to!(m@[i as int] => m@[i as int].1));
                    }
                    let c = m[i].1.deep_clone();
                    out.push((m[i].0.clone(), c));
                    i = i + 1;
                }
                proof {
                    lemma_object_view(*m);
                    lemma_object_view(out);
                    assert(members_view(out@) =~= members_view(m@));
                }
                Json::Object(out)
            },
        }
    }
}

/// An empty object.
pub fn new_object() -> (r: Json)
    ensures
        jview(r) == JVal::Object(Seq::empty()),
{
    let v: Vec<(String, Json)> = Vec::new();
    proof {
        lemma_object_view(v);
        assert(members_view(v@) =~= Seq::empty());
    }
    Json::Object(v)
}

/// A string value.
pub fn jstr(s: &str) -> (r: Json)
    ensures
        jview(r) == JVal::Str(s@),
{
    Json::Str(to_owned(s))
}


/// The value of `key`, or `null` when there is none.
pub open spec fn jget_or_null(j: JVal, key: Seq<char>) -> JVal {
    match jget(j, key) {
        Some(v) => v,
        None => JVal::Null,
    }
}

/// A copy of the member `key`, or `null` (`get(key).cloned().unwrap_or(Null)`).
pub fn get_or_null(j: &Json, key: &str) -> (r: Json)
    ensures
        jview(r) == jget_or_null(jview(*j), key@),
{
    match j.get(key) {
        Some(v) => v.deep_clone(),
        None => Json::Null,
    }
}

/// A member pair for building an object.
pub fn member(key: &str, value: Json) -> (r: (String, Json))
    ensures
        r.0@ == key@,
        r.1 == value,
{
    (to_owned(key), value)
}

/// A number value.
pub open spec fn jnum(n: int) -> JVal {
    JVal::Num(n)
}

/// `Value::from(i64)`.
pub fn jint(n: i64) -> (r: Json)
    ensures
        jview(r) == JVal::Num(n as int),
{
    Json::Int(n)
}

/// `Value::from(u64)`.
pub fn juint(n: u64) -> (r: Json)
    ensures
        jview(r) == JVal::Num(n as int),
{
    if n <= 0x7fff_ffff_ffff_ffffu64 {
        Json::Int(n as i64)
    } else {
        Json::UInt(n)
    }
}

/// A string value owned from a `String`.
pub fn jstring(s: String) -> (r: Json)
    ensures
        jview(r) == JVal::Str(s@),
{
    Json::Str(s)
}

/// An object from its members, in order.
pub fn object_of(m: Vec<(String, Json)>) -> (r: Json)
    ensures
        jview(r) == JVal::Object(members_view(m@)),
{
    proof {
        lemma_object_view(m);
    }
    Json::Object(m)
}


/// A boolean value.
pub fn jbool(b: bool) -> (r: Json)
    ensures
        jview(r) == JVal::Bool(b),
{
    Json::Bool(b)
}

/// An empty array.
pub fn jempty_array() -> (r: Json)
    ensures
        jview(r) == JVal::Array(Seq::empty()),
{
    let v: Vec<Json> = Vec::new();
    proof {
        lemma_array_view(v);
        assert(v@.map_values(|x: Json| jview(x)) =~= Seq::<JVal>::empty());
    }
    Json::Array(v)
}

/// An array of string values.
pub fn jstr_array(items: &Vec<&str>) -> (r: Json)
    ensures
        jview(r) == JVal::Array(items@.map_values(|s: &str| JVal::Str(s@))),
{
    let mut v: Vec<Json> = Vec::new();
    let mut i: usize = 0;
    while i < items.len()
        invariant
            i <= items.len(),
            v@.len() == i,
            forall|k: int| 0 <= k < i ==> jview(#[trigger] v@[k]) == JVal::Str(items@[k]@),
        decreases items.len() - i,
    {
        v.push(jstr(items[i]));
        i = i + 1;
    }
    proof {
        lemma_array_view(v);
        assert(v@.map_values(|x: Json| jview(x)) =~= items@.map_values(|s: &str| JVal::Str(s@)));
    }
    Json::Array(v)
}

/// An optional string as a value (`null` for none).
pub open spec fn jopt_str(o: Option<Seq<char>>) -> JVal {
    match o {
        Some(s) => JVal::Str(s),
        None => JVal::Null,
    }
}

/// An optional owned string as a value (`null` for none).
pub fn jopt_string(o: &Option<String>) -> (r: Json)
    ensures
        jview(r) == jopt_str(crate::strings::opt_string_view(*o)),
{
    match o {
        Some(s) => jstr(s.as_str()),
        None => Json::Null,
    }
}

pub fn jopt(o: Option<&str>) -> (r: Json)
    ensures
        jview(r) == jopt_str(opt_view(o)),
{
    match o {
        Some(s) => jstr(s),
        None => Json::Null,
    }
}

/// The value of `key`, or `fallback` when there is none.
pub open spec fn jget_or(j: JVal, key: Seq<char>, fallback: JVal) -> JVal {
    match jget(j, key) {
        Some(v) => v,
        None => fallback,
    }
}

/// A copy of member `key`, or `fallback`.
pub fn get_or(j: &Json, key: &str, fallback: Json) -> (r: Json)
    ensures
        jview(r) == jget_or(jview(*j), key@, jview(fallback)),
{
    match j.get(key) {
        Some(v) => v.deep_clone(),
        None => fallback,
    }
}


/// Takes the value of member `key` out of an object, leaving `null` in its
/// place; `None` (and no change) when there is no such member.
pub fn take_member(j: &mut Json, key: &str) -> (r: Option<Json>)
    ensures
        match r {
            Some(v) => jget(jview(*old(j)), key@) == Some(jview(v)) && jview(*final(j)) == jinsert(
                jview(*old(j)),
                key@,
                JVal::Null,
            ),
            None => jget(jview(*old(j)), key@) is None && *final(j) == *old(j),
        },
{
    match j {
        Json::Object(m) => {
            let ghost old_m = *m;
            proof {
                lemma_object_view(old_m);
            }
            match find_member(m, key) {
                Some(i) => {
                    let mut slot = (to_owned(key), Json::Null);
                    m.set_and_swap(i, &mut slot);
                    proof {
                        assert(members_view(m@) =~= members_view(old_m@).update(
                            i as int,
                            (key@, JVal::Null),
                        ));
                        lemma_object_view(*m);
                    }
                    let (_, v) = slot;
                    Some(v)
                },
                None => None,
            }
        },
        _ => None,
    }
}

/// Inserting twice under one present key is inserting the second value.
pub proof fn lemma_jinsert_twice(o: JVal, k: Seq<char>, a: JVal, b: JVal)
    requires
        jget(o, k) is Some,
    ensures
        jinsert(jinsert(o, k, a), k, b) == jinsert(o, k, b),
{
    match o {
        JVal::Object(m) => {
            let i = jmember_index(m, k);
            lemma_jmember_index_bounds(m, k);
            let m1 = m.update(i, (k, a));
            lemma_jmember_index_same_keys(m, m1, k);
            assert(m1.update(i, (k, b)) =~= m.update(i, (k, b)));
        },
        _ => {},
    }
}

/// Looking up a key after inserting it gives the inserted value.
pub proof fn lemma_jget_jinsert_same(o: JVal, k: Seq<char>, v: JVal)
    requires
        o is Object,
    ensures
        jget(jinsert(o, k, v), k) == Some(v),
{
    match o {
        JVal::Object(m) => {
            lemma_jmember_index_bounds(m, k);
            let i = jmember_index(m, k);
            if i < 0 {
                lemma_jmember_index_scan(m.push((k, v)), k, m.len() as int);
            } else {
                let m1 = m.update(i, (k, v));
                lemma_jmember_index_same_keys(m, m1, k);
            }
        },
        _ => {},
    }
}


/// An array of string values from owned strings.
pub fn jstring_array(items: &[String]) -> (r: Json)
    ensures
        jview(r) == JVal::Array(items@.map_values(|s: String| JVal::Str(s@))),
{
    let mut v: Vec<Json> = Vec::new();
    let mut i: usize = 0;
    while i < items.len()
        invariant
            i <= items.len(),
            v@.len() == i,
            forall|k: int| 0 <= k < i ==> jview(#[trigger] v@[k]) == JVal::Str(items@[k]@),
        decreases items.len() - i,
    {
        v.push(Json::Str(items[i].clone()));
        i = i + 1;
    }
    proof {
        lemma_array_view(v);
        assert(v@.map_values(|x: Json| jview(x)) =~= items@.map_values(|s: String| JVal::Str(s@)));
    }
    Json::Array(v)
}

/// Appending a member leaves the positions of the names already present,
/// and finds an appended new name at the end.
pub proof fn lemma_jmember_index_push(m: Seq<(Seq<char>, JVal)>, x: (Seq<char>, JVal), k: Seq<char>)
    ensures
        jmember_index(m, k) >= 0 ==> jmember_index(m.push(x), k) == jmember_index(m, k),
        jmember_index(m, k) < 0 && x.0 == k ==> jmember_index(m.push(x), k) == m.len(),
        jmember_index(m, k) < 0 && x.0 != k ==> jmember_index(m.push(x), k) < 0,
{
    lemma_jmember_index_bounds(m, k);
    let i = jmember_index(m, k);
    let m2 = m.push(x);
    if i >= 0 {
        assert forall|q: int| 0 <= q < i implies m2[q].0 != k by {
            assert(m2[q] == m[q]);
        }
        assert(m2[i] == m[i]);
        lemma_jmember_index_scan(m2, k, i);
    } else {
        assert forall|q: int| 0 <= q < m.len() implies m2[q].0 != k by {
            assert(m2[q] == m[q]);
        }
        if x.0 == k {
            lemma_jmember_index_scan(m2, k, m.len() as int);
        } else {
            assert forall|q: int| 0 <= q < m2.len() implies m2[q].0 != k by {
                if q < m.len() {
                    assert(m2[q] == m[q]);
                }
            }
            lemma_jmember_index_scan(m2, k, m2.len() as int);
        }
    }
}

/// Inserting under one name leaves the lookup of another name as it was.
pub proof fn lemma_jget_jinsert_other(o: JVal, k: Seq<char>, v: JVal, k2: Seq<char>)
    requires
        k != k2,
    ensures
        jget(jinsert(o, k, v), k2) == jget(o, k2),
{
    match o {
        JVal::Object(m) => {
            lemma_jmember_index_bounds(m, k);
            let i = jmember_index(m, k);
            if i < 0 {
                lemma_jmember_index_push(m, (k, v), k2);
                lemma_jmember_index_bounds(m, k2);
                if jmember_index(m, k2) >= 0 {
                    assert(m.push((k, v))[jmember_index(m, k2)] == m[jmember_index(m, k2)]);
                }
            } else {
                let m1 = m.update(i, (k, v));
                lemma_jmember_index_same_keys(m, m1, k2);
                lemma_jmember_index_bounds(m, k2);
            }
        },
        _ => {},
    }
}

/// Inserting the value a name already has changes nothing.
pub proof fn lemma_jinsert_present(o: JVal, k: Seq<char>, v: JVal)
    requires
        jget(o, k) == Some(v),
    ensures
        jinsert(o, k, v) == o,
{
    match o {
        JVal::Object(m) => {
            lemma_jmember_index_bounds(m, k);
            let i = jmember_index(m, k);
            assert(m[i] == (k, v));
            assert(m.update(i, (k, v)) =~= m);
        },
        _ => {},
    }
}

/// The members other than those named `k`, in order.
pub open spec fn remove_key(m: Seq<(Seq<char>, JVal)>, k: Seq<char>) -> Seq<(Seq<char>, JVal)>
    decreases m.len(),
{
    if m.len() == 0 {
        Seq::empty()
    } else {
        let r = remove_key(m.drop_last(), k);
        if m.last().0 == k {
            r
        } else {
            r.push(m.last())
        }
    }
}

/// The object without its members named `k` (`Map::remove`); any other
/// value is left as it is.
pub open spec fn jremove(j: JVal, k: Seq<char>) -> JVal {
    match j {
        JVal::Object(m) => JVal::Object(remove_key(m, k)),
        _ => j,
    }
}

/// Removes the members named `key` from an object.
pub fn remove_member(j: Json, key: &str) -> (r: Json)
    ensures
        jview(r) == jremove(jview(j), key@),
{
    match j {
        Json::Object(m) => {
            proof {
                lemma_object_view(m);
            }
            let ghost mv = members_view(m@);
            let mut out: Vec<(String, Json)> = Vec::new();
            let mut rest = m;
            let mut taken: Vec<(String, Json)> = Vec::new();
            // Members are moved out in order: reverse once, then pop.
            let n = rest.len();
            let mut i: usize = 0;
            while i < n
                invariant
                    i <= n,
                    n == m@.len(),
                    rest@.len() == n - i,
                    taken@.len() == i,
                    forall|t: int| 0 <= t < i ==> #[trigger] taken@[t] == m@[n - 1 - t],
                    forall|t: int| 0 <= t < n - i ==> #[trigger] rest@[t] == m@[t],
                decreases n - i,
            {
                let e = rest.pop().unwrap();
                taken.push(e);
                i = i + 1;
            }
            let mut k: usize = 0;
            assert(mv.take(0) =~= Seq::<(Seq<char>, JVal)>::empty());
            while k < n
                invariant
                    k <= n,
                    n == m@.len(),
                    mv == members_view(m@),
                    taken@.len() == n - k,
                    forall|t: int| 0 <= t < n - k ==> #[trigger] taken@[t] == m@[n - 1 - t],
                    members_view(out@) == remove_key(mv.take(k as int), key@),
                decreases n - k,
            {
                let e = taken.pop().unwrap();
                proof {
                    assert(e == m@[k as int]);
                    assert(mv.take(k + 1).drop_last() =~= mv.take(k as int));
                    assert(mv.take(k + 1).last() == (e.0@, jview(e.1)));
                }
                if !str_eq(e.0.as_str(), key) {
                    let ghost before = out@;
                    out.push(e);
                    proof {
                        assert(members_view(out@) =~= members_view(before).push(
                            (out@.last().0@, jview(out@.last().1)),
                        ));
                    }
                }
                k = k + 1;
            }
            assert(mv.take(n as int) =~= mv);
            proof {
                lemma_object_view(out);
            }
            Json::Object(out)
        },
        _ => j,
    }
}

} // verus!
