use vstd::prelude::*;

use crate::error::{Error, ShapeError};

verus! {

/// A wire payload: the value tree of one JSON document.
///
/// Numbers are exact: `Int` for integers and `Decimal(m, s)` for the value
/// `m * 10^-s`. Object members keep the order in which they were written.
#[derive(Debug, PartialEq)]
pub enum Json {
    Null,
    Bool(bool),
    Int(i128),
    Decimal(i64, u8),
    Str(String),
    Array(Vec<Json>),
    Object(Vec<(String, Json)>),
}

/// The mathematical value of a [`Json`] tree: strings become `Seq<char>`.
pub enum JsonV {
    Null,
    Bool(bool),
    Int(int),
    Decimal(int, nat),
    Str(Seq<char>),
    Array(Seq<JsonV>),
    Object(Seq<(Seq<char>, JsonV)>),
}

pub open spec fn view_items(s: Seq<Json>) -> Seq<JsonV>
    decreases s,
{
    if s.len() == 0 {
        Seq::empty()
    } else {
        seq![s[0].view()] + view_items(s.drop_first())
    }
}

pub open spec fn view_members(s: Seq<(String, Json)>) -> Seq<(Seq<char>, JsonV)>
    decreases s,
{
    if s.len() == 0 {
        Seq::empty()
    } else {
        seq![(s[0].0@, s[0].1.view())] + view_members(s.drop_first())
    }
}

impl Json {
    pub open spec fn view(&self) -> JsonV
        decreases self,
    {
        match self {
            Json::Null => JsonV::Null,
            Json::Bool(b) => JsonV::Bool(*b),
            Json::Int(i) => JsonV::Int(*i as int),
            Json::Decimal(m, s) => JsonV::Decimal(*m as int, *s as nat),
            Json::Str(s) => JsonV::Str(s@),
            Json::Array(a) => JsonV::Array(view_items(a@)),
            Json::Object(m) => JsonV::Object(view_members(m@)),
        }
    }
}

/// The first value stored under `key` among object members.
pub open spec fn member(ms: Seq<(Seq<char>, JsonV)>, key: Seq<char>) -> Option<JsonV>
    decreases ms.len(),
{
    if ms.len() == 0 {
        None
    } else if ms[0].0 == key {
        Some(ms[0].1)
    } else {
        member(ms.drop_first(), key)
    }
}

/// The member `key` of an object payload; `None` when absent or when `v` is no object.
pub open spec fn field(v: JsonV, key: Seq<char>) -> Option<JsonV> {
    match v {
        JsonV::Object(ms) => member(ms, key),
        _ => None,
    }
}

pub proof fn lemma_view_items(s: Seq<Json>)
    ensures
        view_items(s).len() == s.len(),
        forall|i: int| 0 <= i < s.len() ==> #[trigger] view_items(s)[i] == s[i].view(),
    decreases s.len(),
{
    if s.len() > 0 {
        lemma_view_items(s.drop_first());
    }
}

pub proof fn lemma_view_members(s: Seq<(String, Json)>)
    ensures
        view_members(s).len() == s.len(),
        forall|i: int|
            0 <= i < s.len() ==> #[trigger] view_members(s)[i] == (s[i].0@, s[i].1.view()),
    decreases s.len(),
{
    if s.len() > 0 {
        lemma_view_members(s.drop_first());
    }
}

proof fn lemma_member_skip(ms: Seq<(Seq<char>, JsonV)>, key: Seq<char>, i: int)
    requires
        0 <= i < ms.len(),
        ms[i].0 != key,
    ensures
        member(ms.subrange(i, ms.len() as int), key) == member(
            ms.subrange(i + 1, ms.len() as int),
            key,
        ),
{
    assert(ms.subrange(i, ms.len() as int).drop_first() =~= ms.subrange(i + 1, ms.len() as int));
}

impl Json {
    /// The member `key` of this payload, when it is an object that has one.
    pub fn get(&self, key: &str) -> (r: Option<&Json>)
        ensures
            r is None <==> field(self@, key@) is None,
            r matches Some(x) ==> field(self@, key@) == Some(x@),
    {
        match self {
            Json::Object(ms) => {
                let k = String::from_str(key);
                let ghost vm = view_members(ms@);
                assert(self@ == JsonV::Object(vm));
                proof {
                    lemma_view_members(ms@);
                    assert(vm.subrange(0, vm.len() as int) =~= vm);
                }
                let mut i: usize = 0;
                while i < ms.len()
                    invariant
                        0 <= i <= ms.len(),
                        vm == view_members(ms@),
                        self@ == JsonV::Object(vm),
                        vm.len() == ms@.len(),
                        k@ == key@,
                        member(vm, key@) == member(vm.subrange(i as int, vm.len() as int), key@),
                    decreases ms.len() - i,
                {
                    proof {
                        lemma_view_members(ms@);
                    }
                    if ms[i].0 == k {
                        assert(vm.subrange(i as int, vm.len() as int)[0] == vm[i as int]);
                        return Some(&ms[i].1);
                    }
                    proof {
                        lemma_member_skip(vm, key@, i as int);
                    }
                    i = i + 1;
                }
                None
            },
            _ => None,
        }
    }
}

/// A member that may be left out: absent and `null` both mean "no value".
pub open spec fn present(f: Option<JsonV>) -> Option<JsonV> {
    match f {
        Some(JsonV::Null) => None,
        _ => f,
    }
}

/// A member that holds an integer in `lo..=hi`.
pub open spec fn int_in(f: Option<JsonV>, lo: int, hi: int) -> bool {
    match f {
        Some(JsonV::Int(n)) => lo <= n <= hi,
        _ => false,
    }
}

/// An optional member that, when present, holds an integer in `lo..=hi`.
pub open spec fn opt_int_in(f: Option<JsonV>, lo: int, hi: int) -> bool {
    present(f) is None || int_in(present(f), lo, hi)
}

/// An optional member that, when present, holds a string.
pub open spec fn opt_str_ok(f: Option<JsonV>) -> bool {
    present(f) is None || present(f) matches Some(JsonV::Str(_))
}

pub open spec fn str_value(v: JsonV) -> Option<Seq<char>> {
    match v {
        JsonV::Str(s) => Some(s),
        _ => None,
    }
}

pub open spec fn int_value(v: JsonV) -> Option<int> {
    match v {
        JsonV::Int(i) => Some(i),
        _ => None,
    }
}

pub open spec fn bool_value(v: JsonV) -> Option<bool> {
    match v {
        JsonV::Bool(b) => Some(b),
        _ => None,
    }
}

/// The members that an optional value adds to an object: one, or none when unset.
pub open spec fn opt_member(key: Seq<char>, v: Option<JsonV>) -> Seq<(Seq<char>, JsonV)> {
    match v {
        Some(x) => seq![(key, x)],
        None => Seq::empty(),
    }
}

pub open spec fn opt_view(o: Option<Json>) -> Option<JsonV> {
    match o {
        Some(x) => Some(x@),
        None => None,
    }
}

pub open spec fn opt_str_view(o: Option<String>) -> Option<Seq<char>> {
    match o {
        Some(s) => Some(s@),
        None => None,
    }
}

pub open spec fn opt_str_json(o: Option<Seq<char>>) -> Option<JsonV> {
    match o {
        Some(s) => Some(JsonV::Str(s)),
        None => None,
    }
}

pub open spec fn opt_int_json(o: Option<int>) -> Option<JsonV> {
    match o {
        Some(i) => Some(JsonV::Int(i)),
        None => None,
    }
}

pub open spec fn opt_bool_json(o: Option<bool>) -> Option<JsonV> {
    match o {
        Some(b) => Some(JsonV::Bool(b)),
        None => None,
    }
}

pub proof fn lemma_view_members_push(s: Seq<(String, Json)>, m: (String, Json))
    ensures
        view_members(s.push(m)) == view_members(s).push((m.0@, m.1.view())),
{
    lemma_view_members(s);
    lemma_view_members(s.push(m));
    assert(view_members(s.push(m)) =~= view_members(s).push((m.0@, m.1.view())));
}

pub proof fn lemma_view_items_push(s: Seq<Json>, x: Json)
    ensures
        view_items(s.push(x)) == view_items(s).push(x.view()),
{
    lemma_view_items(s);
    lemma_view_items(s.push(x));
    assert(view_items(s.push(x)) =~= view_items(s).push(x.view()));
}

/// Appends the member `key: v` to the members of an object under construction.
pub fn push_member(ms: &mut Vec<(String, Json)>, key: &str, v: Json)
    ensures
        view_members(final(ms)@) == view_members(old(ms)@).push((key@, v@)),
{
    let k = String::from_str(key);
    proof {
        lemma_view_members_push(ms@, (k, v));
    }
    ms.push((k, v));
}

/// Appends `key: v` when `v` holds a value; leaves the members as they are otherwise.
pub fn push_opt_member(ms: &mut Vec<(String, Json)>, key: &str, v: Option<Json>)
    ensures
        view_members(final(ms)@) == view_members(old(ms)@) + opt_member(key@, opt_view(v)),
{
    match v {
        Some(x) => {
            push_member(ms, key, x);
        },
        None => {
            assert(view_members(ms@) + Seq::empty() =~= view_members(ms@));
        },
    }
}

fn missing(key: &str) -> (e: Error)
    ensures
        e is Shape,
{
    Error::Shape(ShapeError::Missing(String::from_str(key)))
}

fn wrong_type(key: &str) -> (e: Error)
    ensures
        e is Shape,
{
    Error::Shape(ShapeError::WrongType(String::from_str(key)))
}

impl Json {
    /// Reads the required string member `key`.
    pub fn read_str(&self, key: &str) -> (r: Result<String, Error>)
        ensures
            r is Ok <==> field(self@, key@) matches Some(JsonV::Str(_)),
            r matches Ok(s) ==> field(self@, key@) == Some(JsonV::Str(s@)),
            r matches Err(e) ==> e is Shape,
    {
        match self.get(key) {
            Some(Json::Str(s)) => Ok(s.clone()),
            Some(_) => Err(wrong_type(key)),
            None => Err(missing(key)),
        }
    }

    /// Reads the optional string member `key`; absent and `null` give `None`.
    pub fn read_opt_str(&self, key: &str) -> (r: Result<Option<String>, Error>)
        ensures
            r is Ok <==> opt_str_ok(field(self@, key@)),
            r matches Ok(o) ==> opt_str_json(opt_str_view(o)) == present(field(self@, key@)),
            r matches Err(e) ==> e is Shape,
    {
        match self.get(key) {
            Some(Json::Str(s)) => Ok(Some(s.clone())),
            Some(Json::Null) => Ok(None),
            Some(_) => Err(wrong_type(key)),
            None => Ok(None),
        }
    }

    /// Reads the required integer member `key`.
    pub fn read_i64(&self, key: &str) -> (r: Result<i64, Error>)
        ensures
            r is Ok <==> int_in(field(self@, key@), i64::MIN as int, i64::MAX as int),
            r matches Ok(i) ==> field(self@, key@) == Some(JsonV::Int(i as int)),
            r matches Err(e) ==> e is Shape,
    {
        match self.get(key) {
            Some(Json::Int(i)) => {
                if i64::MIN as i128 <= *i && *i <= i64::MAX as i128 {
                    Ok(*i as i64)
                } else {
                    Err(wrong_type(key))
                }
            },
            Some(_) => Err(wrong_type(key)),
            None => Err(missing(key)),
        }
    }

    /// Reads the optional integer member `key`; absent and `null` give `None`.
    pub fn read_opt_i64(&self, key: &str) -> (r: Result<Option<i64>, Error>)
        ensures
            r is Ok <==> opt_int_in(field(self@, key@), i64::MIN as int, i64::MAX as int),
            r matches Ok(o) ==> present(field(self@, key@)) == opt_int_json(
                match o {
                    Some(i) => Some(i as int),
                    None => None,
                },
            ),
            r matches Err(e) ==> e is Shape,
    {
        match self.get(key) {
            Some(Json::Int(i)) => {
                if i64::MIN as i128 <= *i && *i <= i64::MAX as i128 {
                    Ok(Some(*i as i64))
                } else {
                    Err(wrong_type(key))
                }
            },
            Some(Json::Null) => Ok(None),
            Some(_) => Err(wrong_type(key)),
            None => Ok(None),
        }
    }

    /// Reads the required boolean member `key`.
    pub fn read_bool(&self, key: &str) -> (r: Result<bool, Error>)
        ensures
            r is Ok <==> field(self@, key@) matches Some(JsonV::Bool(_)),
            r matches Ok(b) ==> field(self@, key@) == Some(JsonV::Bool(b)),
            r matches Err(e) ==> e is Shape,
    {
        match self.get(key) {
            Some(Json::Bool(b)) => Ok(*b),
            Some(_) => Err(wrong_type(key)),
            None => Err(missing(key)),
        }
    }
}

impl Json {
    /// Reads the optional non-negative integer member `key`; absent and `null` give `None`.
    pub fn read_opt_u64(&self, key: &str) -> (r: Result<Option<u64>, Error>)
        ensures
            r is Ok <==> opt_int_in(field(self@, key@), 0, u64::MAX as int),
            r matches Ok(o) ==> present(field(self@, key@)) == opt_int_json(
                match o {
                    Some(i) => Some(i as int),
                    None => None,
                },
            ),
            r matches Err(e) ==> e is Shape,
    {
        match self.get(key) {
            Some(Json::Int(i)) => {
                if 0 <= *i && *i <= u64::MAX as i128 {
                    Ok(Some(*i as u64))
                } else {
                    Err(wrong_type(key))
                }
            },
            Some(Json::Null) => Ok(None),
            Some(_) => Err(wrong_type(key)),
            None => Ok(None),
        }
    }
}

impl Json {
    /// Reads the required non-negative integer member `key`.
    pub fn read_u64(&self, key: &str) -> (r: Result<u64, Error>)
        ensures
            r is Ok <==> int_in(field(self@, key@), 0, u64::MAX as int),
            r matches Ok(i) ==> field(self@, key@) == Some(JsonV::Int(i as int)),
            r matches Err(e) ==> e is Shape,
    {
        match self.get(key) {
            Some(Json::Int(i)) => {
                if 0 <= *i && *i <= u64::MAX as i128 {
                    Ok(*i as u64)
                } else {
                    Err(wrong_type(key))
                }
            },
            Some(_) => Err(wrong_type(key)),
            None => Err(missing(key)),
        }
    }
}

pub open spec fn opt_u32_json(o: Option<u32>) -> Option<JsonV> {
    match o {
        Some(n) => Some(JsonV::Int(n as int)),
        None => None,
    }
}

impl Json {
    pub fn is_object(&self) -> (r: bool)
        ensures
            r == (self@ is Object),
    {
        match self {
            Json::Object(_) => true,
            _ => false,
        }
    }

    /// Reads the optional member `key` as a `u32`; absent and `null` give `None`.
    pub fn read_opt_u32(&self, key: &str) -> (r: Result<Option<u32>, Error>)
        ensures
            r is Ok <==> opt_int_in(field(self@, key@), 0, u32::MAX as int),
            r matches Ok(o) ==> present(field(self@, key@)) == opt_u32_json(o),
            r matches Err(e) ==> e is Shape,
    {
        match self.get(key) {
            Some(Json::Int(i)) => {
                if 0 <= *i && *i <= u32::MAX as i128 {
                    Ok(Some(*i as u32))
                } else {
                    Err(wrong_type(key))
                }
            },
            Some(Json::Null) => Ok(None),
            Some(_) => Err(wrong_type(key)),
            None => Ok(None),
        }
    }
}

impl Json {
    /// Reads the optional boolean member `key`; absent and `null` give `None`.
    pub fn read_opt_bool(&self, key: &str) -> (r: Result<Option<bool>, Error>)
        ensures
            r is Ok <==> (present(field(self@, key@)) is None || present(field(self@, key@)) matches Some(
                JsonV::Bool(_),
            )),
            r matches Ok(o) ==> present(field(self@, key@)) == opt_bool_json(o),
            r matches Err(e) ==> e is Shape,
    {
        match self.get(key) {
            Some(Json::Bool(b)) => Ok(Some(*b)),
            Some(Json::Null) => Ok(None),
            Some(_) => Err(wrong_type(key)),
            None => Ok(None),
        }
    }
}

} // verus!
