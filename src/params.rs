use vstd::prelude::*;

use crate::error::{Error, ShapeError};
use crate::ids::ResourceId;
use crate::json::{
    field, lemma_view_items, lemma_view_items_push, lemma_view_members, lemma_view_members_push,
    opt_bool_json, opt_int_in, opt_int_json, opt_member, opt_str_json, opt_str_ok, opt_str_view,
    opt_view, present, push_member, push_opt_member, str_value, view_items, view_members, Json,
    JsonV,
};

verus! {

/// Seconds since the Unix epoch.
pub type Timestamp = i64;

/// The identity that every resource carries: its own identifier and the
/// fixed tag that the service writes in the payload's `object` member.
pub trait Object: Sized {
    type Id: ResourceId;

    spec fn id_view(&self) -> Seq<char>;

    spec fn tag() -> Seq<char>;

    fn id(&self) -> (r: Self::Id)
        ensures
            r@ == self.id_view(),
    ;

    fn object(&self) -> (r: &'static str)
        ensures
            r@ == Self::tag(),
    ;
}

/// A type that is read from a wire payload.
pub trait FromJson: Sized {
    /// The payloads that have this type's shape.
    spec fn accepts(v: JsonV) -> bool;

    /// `self` is what `v` reads as.
    spec fn decoded_from(&self, v: JsonV) -> bool;

    fn from_json(v: &Json) -> (r: Result<Self, Error>)
        ensures
            r is Ok <==> Self::accepts(v@),
            r matches Ok(x) ==> x.decoded_from(v@),
            r matches Err(e) ==> e is Shape,
    ;
}

/// A resource that is read from a payload carrying its identifier in `id`.
pub trait Resource: Object + FromJson {
    proof fn lemma_id_from_payload(&self, v: JsonV)
        requires
            self.decoded_from(v),
        ensures
            field(v, "id"@) == Some(JsonV::Str(self.id_view())),
    ;
}

/// A reference to another resource, which the service sends either as the
/// bare identifier or, when asked to expand it, as the whole object.
pub enum Expandable<T: Object> {
    Id(T::Id),
    Object(Box<T>),
}

impl<T: Object> Expandable<T> {
    pub open spec fn id_view(&self) -> Seq<char> {
        match self {
            Expandable::Id(i) => i@,
            Expandable::Object(o) => o.id_view(),
        }
    }

    /// The identifier of the referenced resource, whichever form was sent.
    pub fn id(&self) -> (r: T::Id)
        ensures
            r@ == self.id_view(),
    {
        match self {
            Expandable::Id(i) => i.duplicate(),
            Expandable::Object(o) => o.id(),
        }
    }

    pub fn is_object(&self) -> (r: bool)
        ensures
            r == self is Object,
    {
        match self {
            Expandable::Id(_) => false,
            Expandable::Object(_) => true,
        }
    }

    /// The whole object, when the reference was expanded.
    pub fn as_object(&self) -> (r: Option<&T>)
        ensures
            r is Some == self is Object,
            r matches Some(o) ==> self == Expandable::<T>::Object(Box::new(*o)),
    {
        match self {
            Expandable::Id(_) => None,
            Expandable::Object(o) => Some(o),
        }
    }
}

impl<T: Object> Expandable<T> {
    /// The payload of a reference: always the bare identifier, whichever form was read.
    pub fn to_json(&self) -> (r: Json)
        ensures
            r@ == JsonV::Str(self.id_view()),
    {
        let id = self.id();
        Json::Str(String::from_str(id.text()))
    }
}

impl<T: Resource> FromJson for Expandable<T> {
    open spec fn accepts(v: JsonV) -> bool {
        v is Str || T::accepts(v)
    }

    open spec fn decoded_from(&self, v: JsonV) -> bool {
        match self {
            Expandable::Id(i) => v == JsonV::Str(i@),
            Expandable::Object(o) => !(v is Str) && o.decoded_from(v),
        }
    }

    fn from_json(v: &Json) -> (r: Result<Self, Error>) {
        match v {
            Json::Str(s) => Ok(Expandable::Id(T::Id::from_text(s.clone()))),
            _ => match T::from_json(v) {
                Ok(o) => Ok(Expandable::Object(Box::new(o))),
                Err(e) => Err(e),
            },
        }
    }
}

/// The elements of an array payload; empty for any other payload.
pub open spec fn array_items(f: Option<JsonV>) -> Seq<JsonV> {
    match f {
        Some(JsonV::Array(items)) => items,
        _ => Seq::empty(),
    }
}

/// One page of a list that the service returns, in the service's order.
///
/// The page is never assumed to be the whole list: `has_more` says whether
/// another page follows, which is asked for with the last item's identifier.
pub struct List<T> {
    pub data: Vec<T>,
    pub has_more: bool,
    pub total_count: Option<u64>,
    /// The path of the list, when the service sends it.
    pub url: Option<String>,
}

impl<T> List<T> {
    /// The items of this page, in order.
    pub fn items(&self) -> (r: &Vec<T>)
        ensures
            r@ == self.data@,
    {
        &self.data
    }

    pub fn has_more(&self) -> (r: bool)
        ensures
            r == self.has_more,
    {
        self.has_more
    }

    pub fn len(&self) -> (r: usize)
        ensures
            r == self.data@.len(),
    {
        self.data.len()
    }

    pub fn is_empty(&self) -> (r: bool)
        ensures
            r == (self.data@.len() == 0),
    {
        self.data.len() == 0
    }
}

impl<T: Object> List<T> {
    /// The cursor that asks for the page after this one: the last item's identifier.
    pub fn next_cursor(&self) -> (r: Option<T::Id>)
        ensures
            r is None <==> self.data@.len() == 0,
            r matches Some(i) ==> i@ == self.data@.last().id_view(),
    {
        if self.data.len() == 0 {
            None
        } else {
            Some(self.data[self.data.len() - 1].id())
        }
    }

    /// The cursor that asks for the page before this one: the first item's identifier.
    pub fn previous_cursor(&self) -> (r: Option<T::Id>)
        ensures
            r is None <==> self.data@.len() == 0,
            r matches Some(i) ==> i@ == self.data@[0].id_view(),
    {
        if self.data.len() == 0 {
            None
        } else {
            Some(self.data[0].id())
        }
    }
}

impl<T: FromJson> FromJson for List<T> {
    open spec fn accepts(v: JsonV) -> bool {
        &&& field(v, "data"@) matches Some(JsonV::Array(_))
        &&& forall|i: int|
            0 <= i < array_items(field(v, "data"@)).len() ==> T::accepts(
                #[trigger] array_items(field(v, "data"@))[i],
            )
        &&& field(v, "has_more"@) matches Some(JsonV::Bool(_))
        &&& opt_str_ok(field(v, "url"@))
        &&& opt_int_in(field(v, "total_count"@), 0, u64::MAX as int)
    }

    open spec fn decoded_from(&self, v: JsonV) -> bool {
        &&& self.data@.len() == array_items(field(v, "data"@)).len()
        &&& forall|i: int|
            0 <= i < self.data@.len() ==> (#[trigger] self.data@[i]).decoded_from(
                array_items(field(v, "data"@))[i],
            )
        &&& field(v, "has_more"@) == Some(JsonV::Bool(self.has_more))
        &&& present(field(v, "url"@)) == opt_str_json(opt_str_view(self.url))
        &&& present(field(v, "total_count"@)) == opt_int_json(
            match self.total_count {
                Some(n) => Some(n as int),
                None => None,
            },
        )
    }

    fn from_json(v: &Json) -> (r: Result<Self, Error>) {
        let items = match v.get("data") {
            Some(Json::Array(a)) => a,
            Some(_) => {
                return Err(Error::Shape(ShapeError::WrongType(String::from_str("data"))));
            },
            None => {
                return Err(Error::Shape(ShapeError::Missing(String::from_str("data"))));
            },
        };
        let ghost iv = view_items(items@);
        proof {
            lemma_view_items(items@);
        }
        let mut data: Vec<T> = Vec::new();
        let mut i: usize = 0;
        while i < items.len()
            invariant
                0 <= i <= items.len(),
                iv == array_items(field(v@, "data"@)),
                iv.len() == items@.len(),
                forall|j: int| 0 <= j < iv.len() ==> #[trigger] iv[j] == items@[j]@,
                data@.len() == i,
                forall|j: int| 0 <= j < i ==> T::accepts(#[trigger] iv[j]),
                forall|j: int| 0 <= j < i ==> (#[trigger] data@[j]).decoded_from(iv[j]),
            decreases items.len() - i,
        {
            match T::from_json(&items[i]) {
                Ok(x) => {
                    data.push(x);
                },
                Err(e) => {
                    assert(!T::accepts(iv[i as int]));
                    return Err(e);
                },
            }
            i = i + 1;
        }
        let has_more = match v.read_bool("has_more") {
            Ok(b) => b,
            Err(e) => {
                return Err(e);
            },
        };
        let url = match v.read_opt_str("url") {
            Ok(s) => s,
            Err(e) => {
                return Err(e);
            },
        };
        let total_count = match v.read_opt_u64("total_count") {
            Ok(n) => n,
            Err(e) => {
                return Err(e);
            },
        };
        Ok(List { data, has_more, total_count, url })
    }
}

/// No key occurs twice.
pub open spec fn keys_unique(es: Seq<(Seq<char>, Seq<char>)>) -> bool {
    forall|i: int, j: int| 0 <= i < j < es.len() ==> es[i].0 != es[j].0
}

pub open spec fn has_key(es: Seq<(Seq<char>, Seq<char>)>, k: Seq<char>) -> bool {
    exists|j: int| 0 <= j < es.len() && es[j].0 == k
}

/// The entries after setting `k` to `v`: in place when `k` is there, at the end otherwise.
pub open spec fn entries_insert(es: Seq<(Seq<char>, Seq<char>)>, k: Seq<char>, v: Seq<char>) -> Seq<
    (Seq<char>, Seq<char>),
> {
    if has_key(es, k) {
        es.update(choose|j: int| 0 <= j < es.len() && es[j].0 == k, (k, v))
    } else {
        es.push((k, v))
    }
}

/// The entries that the members of an object payload of strings give, a later
/// member replacing the value of an earlier one with the same key.
pub open spec fn entries_of(ms: Seq<(Seq<char>, JsonV)>) -> Seq<(Seq<char>, Seq<char>)>
    decreases ms.len(),
{
    if ms.len() == 0 {
        Seq::empty()
    } else {
        entries_insert(
            entries_of(ms.drop_last()),
            ms.last().0,
            str_value(ms.last().1)->Some_0,
        )
    }
}

/// The object payload of a set of entries.
pub open spec fn entries_json(es: Seq<(Seq<char>, Seq<char>)>) -> JsonV {
    JsonV::Object(Seq::new(es.len(), |i: int| (es[i].0, JsonV::Str(es[i].1))))
}

/// Key-value pairs that can be attached to a resource, in the order in which
/// their keys were first set.
#[derive(Clone, Debug)]
pub struct Metadata {
    entries: Vec<(String, String)>,
}

impl View for Metadata {
    type V = Seq<(Seq<char>, Seq<char>)>;

    closed spec fn view(&self) -> Seq<(Seq<char>, Seq<char>)> {
        Seq::new(self.entries@.len(), |i: int| (self.entries@[i].0@, self.entries@[i].1@))
    }
}

impl Metadata {
    pub open spec fn wf(&self) -> bool {
        keys_unique(self@)
    }

    /// No entries; sent as an update, this clears every key.
    pub fn new() -> (r: Metadata)
        ensures
            r@ == Seq::<(Seq<char>, Seq<char>)>::empty(),
            r.wf(),
    {
        let r = Metadata { entries: Vec::new() };
        assert(r@ =~= Seq::<(Seq<char>, Seq<char>)>::empty());
        r
    }

    pub fn len(&self) -> (r: usize)
        ensures
            r == self@.len(),
    {
        self.entries.len()
    }

    pub fn is_empty(&self) -> (r: bool)
        ensures
            r == (self@.len() == 0),
    {
        self.entries.len() == 0
    }

    /// Sets `key` to `value`, in place when the key is already there.
    pub fn insert(&mut self, key: String, value: String)
        requires
            old(self).wf(),
        ensures
            final(self).wf(),
            final(self)@ == entries_insert(old(self)@, key@, value@),
    {
        let ghost es = self@;
        let mut i: usize = 0;
        while i < self.entries.len()
            invariant
                0 <= i <= self.entries@.len(),
                self@ == es,
                es == old(self)@,
                keys_unique(es),
                forall|j: int| 0 <= j < i ==> es[j].0 != key@,
            decreases self.entries@.len() - i,
        {
            assert(es[i as int] == (self.entries@[i as int].0@, self.entries@[i as int].1@));
            if self.entries[i].0 == key {
                assert(es[i as int].0 == key@);
                assert(has_key(es, key@));
                let ghost j = choose|j: int| 0 <= j < es.len() && es[j].0 == key@;
                assert(j == i);
                self.entries.set(i, (key, value));
                assert(self@ =~= es.update(i as int, (key@, value@)));
                assert(self@ == entries_insert(es, key@, value@));
                assert(keys_unique(self@));
                return;
            }
            i = i + 1;
        }
        assert(!has_key(es, key@));
        self.entries.push((key, value));
        assert(self@ =~= es.push((key@, value@)));
    }

    /// The value of `key`, if it is set.
    pub fn get(&self, key: &str) -> (r: Option<&String>)
        ensures
            r is None <==> !has_key(self@, key@),
            r matches Some(v) ==> exists|j: int|
                0 <= j < self@.len() && self@[j] == (key@, v@),
    {
        let k = String::from_str(key);
        let mut i: usize = 0;
        while i < self.entries.len()
            invariant
                0 <= i <= self.entries@.len(),
                k@ == key@,
                forall|j: int| 0 <= j < i ==> self@[j].0 != key@,
            decreases self.entries@.len() - i,
        {
            assert(self@[i as int] == (self.entries@[i as int].0@, self.entries@[i as int].1@));
            if self.entries[i].0 == k {
                assert(self@[i as int] == (key@, self.entries@[i as int].1@));
                return Some(&self.entries[i].1);
            }
            i = i + 1;
        }
        None
    }

    pub fn to_json(&self) -> (r: Json)
        ensures
            r@ == entries_json(self@),
    {
        let mut ms: Vec<(String, Json)> = Vec::new();
        let mut i: usize = 0;
        while i < self.entries.len()
            invariant
                0 <= i <= self.entries@.len(),
                view_members(ms@) =~= entries_json(self@)->Object_0.take(i as int),
            decreases self.entries@.len() - i,
        {
            proof {
                lemma_view_members_push(ms@, (self.entries@[i as int].0, Json::Str(self.entries@[i as int].1)));
            }
            ms.push((self.entries[i].0.clone(), Json::Str(self.entries[i].1.clone())));
            assert(view_members(ms@) =~= entries_json(self@)->Object_0.take(i + 1));
            i = i + 1;
        }
        assert(entries_json(self@)->Object_0.take(self.entries@.len() as int) =~= entries_json(self@)->Object_0);
        Json::Object(ms)
    }
}

impl FromJson for Metadata {
    open spec fn accepts(v: JsonV) -> bool {
        &&& v is Object
        &&& forall|i: int| 0 <= i < v->Object_0.len() ==> (#[trigger] v->Object_0[i]).1 is Str
    }

    open spec fn decoded_from(&self, v: JsonV) -> bool {
        &&& self.wf()
        &&& self@ == entries_of(v->Object_0)
    }

    fn from_json(v: &Json) -> (r: Result<Self, Error>) {
        let ms = match v {
            Json::Object(ms) => ms,
            _ => {
                return Err(Error::Shape(ShapeError::WrongType(String::from_str("metadata"))));
            },
        };
        let ghost mv = view_members(ms@);
        proof {
            lemma_view_members(ms@);
        }
        let mut m = Metadata::new();
        let mut i: usize = 0;
        while i < ms.len()
            invariant
                0 <= i <= ms@.len(),
                mv == v@->Object_0,
                mv.len() == ms@.len(),
                forall|j: int| 0 <= j < mv.len() ==> #[trigger] mv[j] == (ms@[j].0@, ms@[j].1@),
                forall|j: int| 0 <= j < i ==> (#[trigger] mv[j]).1 is Str,
                m.wf(),
                m@ == entries_of(mv.take(i as int)),
            decreases ms@.len() - i,
        {
            match &ms[i].1 {
                Json::Str(s) => {
                    assert(mv.take(i + 1).drop_last() =~= mv.take(i as int));
                    m.insert(ms[i].0.clone(), s.clone());
                },
                _ => {
                    assert(!(mv[i as int].1 is Str));
                    return Err(Error::Shape(ShapeError::WrongType(String::from_str("metadata"))));
                },
            }
            i = i + 1;
        }
        assert(mv.take(ms@.len() as int) =~= mv);
        Ok(m)
    }
}

/// A required member of type `T`.
pub open spec fn req_accepts<T: FromJson>(f: Option<JsonV>) -> bool {
    match f {
        Some(v) => T::accepts(v),
        None => false,
    }
}

pub open spec fn req_decoded<T: FromJson>(x: T, f: Option<JsonV>) -> bool {
    match f {
        Some(v) => x.decoded_from(v),
        None => false,
    }
}

/// An optional member of type `T`: absent and `null` read as `None`.
pub open spec fn opt_accepts<T: FromJson>(f: Option<JsonV>) -> bool {
    match present(f) {
        Some(v) => T::accepts(v),
        None => true,
    }
}

pub open spec fn opt_decoded<T: FromJson>(o: Option<T>, f: Option<JsonV>) -> bool {
    match (o, present(f)) {
        (None, None) => true,
        (Some(x), Some(v)) => x.decoded_from(v),
        _ => false,
    }
}

/// Reads the required member `key` as a `T`.
pub fn read_req<T: FromJson>(v: &Json, key: &str) -> (r: Result<T, Error>)
    ensures
        r is Ok <==> req_accepts::<T>(field(v@, key@)),
        r matches Ok(x) ==> req_decoded(x, field(v@, key@)),
        r matches Err(e) ==> e is Shape,
{
    match v.get(key) {
        Some(x) => T::from_json(x),
        None => Err(Error::Shape(ShapeError::Missing(String::from_str(key)))),
    }
}

/// Reads the optional member `key` as a `T`.
pub fn read_opt<T: FromJson>(v: &Json, key: &str) -> (r: Result<Option<T>, Error>)
    ensures
        r is Ok <==> opt_accepts::<T>(field(v@, key@)),
        r matches Ok(o) ==> opt_decoded(o, field(v@, key@)),
        r matches Err(e) ==> e is Shape,
{
    match v.get(key) {
        Some(Json::Null) => Ok(None),
        Some(x) => match T::from_json(x) {
            Ok(y) => Ok(Some(y)),
            Err(e) => Err(e),
        },
        None => Ok(None),
    }
}

/// The payload's `object` member names `tag`.
pub open spec fn tag_matches(v: JsonV, tag: Seq<char>) -> bool {
    field(v, "object"@) == Some(JsonV::Str(tag))
}

/// The payload's `object` tag as found: empty when it is absent or no string.
pub open spec fn found_tag(v: JsonV) -> Seq<char> {
    match field(v, "object"@) {
        Some(JsonV::Str(t)) => t,
        _ => Seq::empty(),
    }
}

/// Checks that a payload's `object` member names the expected kind of resource.
pub fn check_tag(v: &Json, expected: &str) -> (r: Result<(), Error>)
    ensures
        r is Ok <==> tag_matches(v@, expected@),
        r matches Err(e) ==> e matches Error::Shape(ShapeError::TagMismatch { expected: x, found })
            && x@ == expected@ && found@ == found_tag(v@),
{
    let exp = String::from_str(expected);
    match v.get("object") {
        Some(Json::Str(t)) => {
            if *t == exp {
                Ok(())
            } else {
                Err(Error::Shape(ShapeError::TagMismatch { expected: exp, found: t.clone() }))
            }
        },
        _ => Err(Error::Shape(ShapeError::TagMismatch { expected: exp, found: String::new() })),
    }
}

/// The `expand` member of a request: the names of the fields to expand, sent
/// only when there is at least one.
pub open spec fn expand_member(expand: Seq<&str>) -> Seq<(Seq<char>, JsonV)> {
    if expand.len() == 0 {
        Seq::empty()
    } else {
        seq![("expand"@, JsonV::Array(Seq::new(expand.len(), |i: int| JsonV::Str(expand[i]@))))]
    }
}

/// Appends the `expand` member for `expand` to the members of a request.
pub fn push_expand(ms: &mut Vec<(String, Json)>, expand: &[&str])
    ensures
        view_members(final(ms)@) == view_members(old(ms)@) + expand_member(expand@),
{
    if expand.len() == 0 {
        assert(view_members(ms@) + Seq::empty() =~= view_members(ms@));
        return;
    }
    let ghost want = Seq::new(expand@.len(), |i: int| JsonV::Str(expand@[i]@));
    let mut items: Vec<Json> = Vec::new();
    let mut i: usize = 0;
    while i < expand.len()
        invariant
            0 <= i <= expand@.len(),
            want == Seq::new(expand@.len(), |i: int| JsonV::Str(expand@[i]@)),
            view_items(items@) =~= want.take(i as int),
        decreases expand@.len() - i,
    {
        let x = Json::Str(String::from_str(expand[i]));
        proof {
            lemma_view_items_push(items@, x);
        }
        items.push(x);
        assert(view_items(items@) =~= want.take(i + 1));
        i = i + 1;
    }
    assert(want.take(expand@.len() as int) =~= want);
    push_member(ms, "expand", Json::Array(items));
    assert(expand_member(expand@) =~= seq![("expand"@, JsonV::Array(want))]);
}

/// Bounds on a value of a list filter; unset bounds are not sent.
#[derive(Clone, Copy, Debug, Default)]
pub struct RangeBounds {
    pub gt: Option<Timestamp>,
    pub gte: Option<Timestamp>,
    pub lt: Option<Timestamp>,
    pub lte: Option<Timestamp>,
}

/// A filter on a timestamp: an exact value or bounds.
#[derive(Clone, Copy, Debug)]
pub enum RangeQuery {
    Exact(Timestamp),
    Bounds(RangeBounds),
}

pub open spec fn opt_ts_json(o: Option<Timestamp>) -> Option<JsonV> {
    match o {
        Some(t) => Some(JsonV::Int(t as int)),
        None => None,
    }
}

impl RangeQuery {
    pub open spec fn spec_json(&self) -> JsonV {
        match self {
            RangeQuery::Exact(t) => JsonV::Int(*t as int),
            RangeQuery::Bounds(b) => JsonV::Object(
                opt_member("gt"@, opt_ts_json(b.gt)) + opt_member("gte"@, opt_ts_json(b.gte))
                    + opt_member("lt"@, opt_ts_json(b.lt)) + opt_member("lte"@, opt_ts_json(b.lte)),
            ),
        }
    }

    pub fn eq(value: Timestamp) -> (r: RangeQuery)
        ensures
            r == RangeQuery::Exact(value),
    {
        RangeQuery::Exact(value)
    }

    pub fn gt(value: Timestamp) -> (r: RangeQuery)
        ensures
            r == RangeQuery::Bounds(RangeBounds { gt: Some(value), gte: None, lt: None, lte: None }),
    {
        RangeQuery::Bounds(RangeBounds { gt: Some(value), gte: None, lt: None, lte: None })
    }

    pub fn gte(value: Timestamp) -> (r: RangeQuery)
        ensures
            r == RangeQuery::Bounds(RangeBounds { gt: None, gte: Some(value), lt: None, lte: None }),
    {
        RangeQuery::Bounds(RangeBounds { gt: None, gte: Some(value), lt: None, lte: None })
    }

    pub fn lt(value: Timestamp) -> (r: RangeQuery)
        ensures
            r == RangeQuery::Bounds(RangeBounds { gt: None, gte: None, lt: Some(value), lte: None }),
    {
        RangeQuery::Bounds(RangeBounds { gt: None, gte: None, lt: Some(value), lte: None })
    }

    pub fn lte(value: Timestamp) -> (r: RangeQuery)
        ensures
            r == RangeQuery::Bounds(RangeBounds { gt: None, gte: None, lt: None, lte: Some(value) }),
    {
        RangeQuery::Bounds(RangeBounds { gt: None, gte: None, lt: None, lte: Some(value) })
    }

    pub fn to_json(&self) -> (r: Json)
        ensures
            r@ == self.spec_json(),
    {
        match self {
            RangeQuery::Exact(t) => Json::Int(*t as i128),
            RangeQuery::Bounds(b) => {
                let mut ms: Vec<(String, Json)> = Vec::new();
                proof {
                    lemma_view_members(ms@);
                }
                push_opt_member(&mut ms, "gt", opt_int(b.gt));
                push_opt_member(&mut ms, "gte", opt_int(b.gte));
                push_opt_member(&mut ms, "lt", opt_int(b.lt));
                push_opt_member(&mut ms, "lte", opt_int(b.lte));
                assert(view_members(ms@) =~= opt_member("gt"@, opt_ts_json(b.gt)) + opt_member(
                    "gte"@,
                    opt_ts_json(b.gte),
                ) + opt_member("lt"@, opt_ts_json(b.lt)) + opt_member("lte"@, opt_ts_json(b.lte)));
                Json::Object(ms)
            },
        }
    }
}

/// An optional integer as the value of a member.
pub fn opt_int(o: Option<i64>) -> (r: Option<Json>)
    ensures
        opt_view(r) == opt_ts_json(o),
{
    match o {
        Some(i) => Some(Json::Int(i as i128)),
        None => None,
    }
}

pub open spec fn opt_u64_json(o: Option<u64>) -> Option<JsonV> {
    match o {
        Some(n) => Some(JsonV::Int(n as int)),
        None => None,
    }
}

pub open spec fn opt_text_json<I: View<V = Seq<char>>>(o: Option<I>) -> Option<JsonV> {
    match o {
        Some(s) => Some(JsonV::Str(s@)),
        None => None,
    }
}

pub open spec fn opt_metadata_json(o: Option<Metadata>) -> Option<JsonV> {
    match o {
        Some(m) => Some(entries_json(m@)),
        None => None,
    }
}

pub fn opt_u64(o: Option<u64>) -> (r: Option<Json>)
    ensures
        opt_view(r) == opt_u64_json(o),
{
    match o {
        Some(n) => Some(Json::Int(n as i128)),
        None => None,
    }
}

pub fn opt_bool(o: Option<bool>) -> (r: Option<Json>)
    ensures
        opt_view(r) == opt_bool_json(o),
{
    match o {
        Some(b) => Some(Json::Bool(b)),
        None => None,
    }
}

pub fn opt_text(o: Option<&str>) -> (r: Option<Json>)
    ensures
        opt_view(r) == opt_text_json(o),
{
    match o {
        Some(s) => Some(Json::Str(String::from_str(s))),
        None => None,
    }
}

pub fn opt_id<I: ResourceId>(o: &Option<I>) -> (r: Option<Json>)
    ensures
        opt_view(r) == opt_text_json(*o),
{
    match o {
        Some(i) => Some(Json::Str(String::from_str(i.text()))),
        None => None,
    }
}

pub fn opt_metadata(o: &Option<Metadata>) -> (r: Option<Json>)
    ensures
        opt_view(r) == opt_metadata_json(*o),
{
    match o {
        Some(m) => Some(m.to_json()),
        None => None,
    }
}

/// Whether `s` holds the text `lit`.
pub fn text_is(s: &String, lit: &str) -> (r: bool)
    ensures
        r == (s@ == lit@),
{
    *s == String::from_str(lit)
}

/// A non-negative percentage with at most two decimal places, held exactly as
/// hundredths of a percent (`12.5%` is `1250`).
#[derive(Clone, Copy, Debug, PartialEq, Eq, Structural)]
pub struct Percent {
    pub hundredths: u32,
}

impl Percent {
    /// The payload of this percentage: a decimal with two places.
    pub open spec fn spec_json(&self) -> JsonV {
        JsonV::Decimal(self.hundredths as int, 2)
    }

    pub fn to_json(&self) -> (r: Json)
        ensures
            r@ == self.spec_json(),
    {
        Json::Decimal(self.hundredths as i64, 2)
    }
}

/// The number of hundredths that a number payload with at most two decimal places is.
pub open spec fn hundredths_of(v: JsonV) -> Option<int> {
    match v {
        JsonV::Int(i) => Some(i * 100),
        JsonV::Decimal(m, s) => if s == 0 {
            Some(m * 100)
        } else if s == 1 {
            Some(m * 10)
        } else if s == 2 {
            Some(m)
        } else {
            None
        },
        _ => None,
    }
}

impl FromJson for Percent {
    open spec fn accepts(v: JsonV) -> bool {
        hundredths_of(v) matches Some(h) && 0 <= h <= u32::MAX
    }

    open spec fn decoded_from(&self, v: JsonV) -> bool {
        hundredths_of(v) == Some(self.hundredths as int)
    }

    fn from_json(v: &Json) -> (r: Result<Self, Error>) {
        let h: i128 = match v {
            Json::Int(i) => {
                if *i < 0 || *i > 42949673 {
                    return Err(Error::Shape(ShapeError::WrongType(String::from_str("percent"))));
                }
                *i * 100
            },
            Json::Decimal(m, s) => {
                let m = *m as i128;
                if *s == 0 {
                    m * 100
                } else if *s == 1 {
                    m * 10
                } else if *s == 2 {
                    m
                } else {
                    return Err(Error::Shape(ShapeError::WrongType(String::from_str("percent"))));
                }
            },
            _ => {
                return Err(Error::Shape(ShapeError::WrongType(String::from_str("percent"))));
            },
        };
        if 0 <= h && h <= u32::MAX as i128 {
            Ok(Percent { hundredths: h as u32 })
        } else {
            Err(Error::Shape(ShapeError::WrongType(String::from_str("percent"))))
        }
    }
}

/// The answer to a deletion: which object, and whether it is gone.
#[derive(Clone, Debug)]
pub struct Deleted {
    pub id: String,
    pub deleted: bool,
}

impl FromJson for Deleted {
    open spec fn accepts(v: JsonV) -> bool {
        &&& field(v, "id"@) matches Some(JsonV::Str(_))
        &&& field(v, "deleted"@) matches Some(JsonV::Bool(_))
    }

    open spec fn decoded_from(&self, v: JsonV) -> bool {
        &&& field(v, "id"@) == Some(JsonV::Str(self.id@))
        &&& field(v, "deleted"@) == Some(JsonV::Bool(self.deleted))
    }

    fn from_json(v: &Json) -> (r: Result<Self, Error>) {
        let id = match v.read_str("id") {
            Ok(s) => s,
            Err(e) => {
                return Err(e);
            },
        };
        let deleted = match v.read_bool("deleted") {
            Ok(b) => b,
            Err(e) => {
                return Err(e);
            },
        };
        Ok(Deleted { id, deleted })
    }
}

pub fn opt_string(o: &Option<String>) -> (r: Option<Json>)
    ensures
        opt_view(r) == opt_str_json(opt_str_view(*o)),
{
    match o {
        Some(s) => Some(Json::Str(s.clone())),
        None => None,
    }
}

/// The members of an empty object: what a request with no parameters sends.
pub fn empty_object() -> (r: Json)
    ensures
        r@ == JsonV::Object(Seq::empty()),
{
    let ms: Vec<(String, Json)> = Vec::new();
    assert(view_members(ms@) =~= Seq::empty());
    Json::Object(ms)
}

/// An array payload whose elements are each read as a `T`, in order.
impl<T: FromJson> FromJson for Vec<T> {
    open spec fn accepts(v: JsonV) -> bool {
        &&& v is Array
        &&& forall|i: int| 0 <= i < v->Array_0.len() ==> T::accepts(#[trigger] v->Array_0[i])
    }

    open spec fn decoded_from(&self, v: JsonV) -> bool {
        &&& v is Array
        &&& self@.len() == v->Array_0.len()
        &&& forall|i: int| 0 <= i < self@.len() ==> (#[trigger] self@[i]).decoded_from(v->Array_0[i])
    }

    fn from_json(v: &Json) -> (r: Result<Self, Error>) {
        let items = match v {
            Json::Array(a) => a,
            _ => {
                return Err(Error::Shape(ShapeError::WrongType(String::from_str("array"))));
            },
        };
        let ghost iv = view_items(items@);
        proof {
            lemma_view_items(items@);
        }
        let mut out: Vec<T> = Vec::new();
        let mut i: usize = 0;
        while i < items.len()
            invariant
                0 <= i <= items.len(),
                v@ == JsonV::Array(iv),
                iv.len() == items@.len(),
                forall|j: int| 0 <= j < iv.len() ==> #[trigger] iv[j] == items@[j]@,
                out@.len() == i,
                forall|j: int| 0 <= j < i ==> T::accepts(#[trigger] iv[j]),
                forall|j: int| 0 <= j < i ==> (#[trigger] out@[j]).decoded_from(iv[j]),
            decreases items.len() - i,
        {
            match T::from_json(&items[i]) {
                Ok(x) => {
                    out.push(x);
                },
                Err(e) => {
                    assert(v@->Array_0[i as int] == iv[i as int]);
                    assert(!T::accepts(iv[i as int]));
                    return Err(e);
                },
            }
            i = i + 1;
        }
        Ok(out)
    }
}

} // verus!
