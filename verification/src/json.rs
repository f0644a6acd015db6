//! A plain model of JSON values: what the argument maps and the schema
//! defaults hold, with the reading functions that the rest of the library uses.

use vstd::prelude::*;
use crate::lists::first_where;
use crate::lists::lemma_first_where;
use crate::lists::lemma_first_where_is;
use crate::text::signed_decimal;
use crate::text::str_eq;

verus! {

/// A JSON value as mathematics sees it. An object is the sequence of its
/// members in the order in which they were written.
pub enum Json {
    Null,
    Bool(bool),
    Int(int),
    Decimal(Seq<char>),
    Text(Seq<char>),
    Array(Seq<Json>),
    Object(Seq<Member>),
}

/// One member of an object: a name and the value under it.
pub struct Member {
    pub key: Seq<char>,
    pub value: Json,
}

/// The position of the first member named `key`, or the number of members
/// where none has that name.
pub open spec fn key_index(members: Seq<Member>, key: Seq<char>) -> nat {
    first_where(members, |m: Member| m.key == key)
}

/// The value of the first member named `key`.
pub open spec fn lookup(members: Seq<Member>, key: Seq<char>) -> Option<Json> {
    let i = key_index(members, key) as int;
    if i < members.len() {
        Some(members[i].value)
    } else {
        None
    }
}

/// The members with `value` under `key`: in place of the first member of
/// that name, or at the end where there is none.
pub open spec fn with_member(members: Seq<Member>, key: Seq<char>, value: Json) -> Seq<Member> {
    let i = key_index(members, key) as int;
    if i < members.len() {
        members.update(i, Member { key, value })
    } else {
        members.push(Member { key, value })
    }
}

/// `key_index` is the least position whose member is named `key`.
pub proof fn lemma_key_index(members: Seq<Member>, key: Seq<char>)
    ensures
        key_index(members, key) <= members.len(),
        forall|j: int| 0 <= j < key_index(members, key) ==> members[j].key != key,
        key_index(members, key) < members.len() ==> members[key_index(members, key) as int].key
            == key,
{
    lemma_first_where(members, |m: Member| m.key == key);
}

/// A position `k` with no member named `key` before it, which holds one or
/// is the end, is `key_index`.
pub proof fn lemma_key_index_is(members: Seq<Member>, key: Seq<char>, k: int)
    requires
        0 <= k <= members.len(),
        forall|j: int| 0 <= j < k ==> members[j].key != key,
        k < members.len() ==> members[k].key == key,
    ensures
        key_index(members, key) == k,
{
    lemma_first_where_is(members, |m: Member| m.key == key, k);
}

/// After `with_member`, `key` leads to `value` and every other name to what
/// it led to before.
pub proof fn lemma_with_member(members: Seq<Member>, key: Seq<char>, value: Json, other: Seq<char>)
    ensures
        lookup(with_member(members, key, value), key) == Some(value),
        other != key ==> lookup(with_member(members, key, value), other) == lookup(members, other),
{
    let i = key_index(members, key) as int;
    let after = with_member(members, key, value);
    lemma_key_index(members, key);
    lemma_key_index_is(after, key, i);
    if other != key {
        let o = key_index(members, other) as int;
        lemma_key_index(members, other);
        if o < members.len() {
            lemma_key_index_is(after, other, o);
        } else {
            lemma_key_index_is(after, other, after.len() as int);
        }
    }
}

impl Json {
    /// The member named `key`, where the value is an object that has one.
    pub open spec fn member(self, key: Seq<char>) -> Option<Json> {
        match self {
            Json::Object(members) => lookup(members, key),
            _ => None,
        }
    }

    /// The text of a scalar: a string as it is, a number as it is written.
    /// Booleans, null, arrays and objects have none.
    pub open spec fn scalar_text(self) -> Option<Seq<char>> {
        match self {
            Json::Text(t) => Some(t),
            Json::Int(n) => Some(signed_decimal(n)),
            Json::Decimal(t) => Some(t),
            _ => None,
        }
    }
}

/// One member of a JSON object.
#[derive(Debug, Clone, PartialEq)]
pub struct JsonEntry {
    pub key: String,
    pub value: JsonValue,
}

/// A JSON object: members in the order of their insertion.
#[derive(Debug, PartialEq)]
pub struct JsonObject {
    pub entries: Vec<JsonEntry>,
}

/// A JSON value. A whole number is `Int` where it fits and `UInt` above that;
/// a number with a fraction or an exponent is `Decimal` and holds its digits
/// as text.
#[derive(Debug, PartialEq)]
pub enum JsonValue {
    Null,
    Bool(bool),
    Int(i64),
    UInt(u64),
    Decimal(String),
    Text(String),
    Array(Vec<JsonValue>),
    Object(JsonObject),
}

impl View for JsonValue {
    type V = Json;

    open spec fn view(&self) -> Json
        decreases self,
    {
        match self {
            JsonValue::Null => Json::Null,
            JsonValue::Bool(b) => Json::Bool(*b),
            JsonValue::Int(n) => Json::Int(*n as int),
            JsonValue::UInt(n) => Json::Int(*n as int),
            JsonValue::Decimal(t) => Json::Decimal(t@),
            JsonValue::Text(t) => Json::Text(t@),
            JsonValue::Array(items) => Json::Array(
                Seq::new(
                    items@.len(),
                    |i: int|
                        if 0 <= i < items@.len() {
                            items@[i].view()
                        } else {
                            Json::Null
                        },
                ),
            ),
            JsonValue::Object(object) => Json::Object(
                Seq::new(
                    object.entries@.len(),
                    |i: int|
                        if 0 <= i < object.entries@.len() {
                            Member {
                                key: object.entries@[i].key@,
                                value: object.entries@[i].value.view(),
                            }
                        } else {
                            Member { key: Seq::empty(), value: Json::Null }
                        },
                ),
            ),
        }
    }
}

impl View for JsonObject {
    type V = Seq<Member>;

    open spec fn view(&self) -> Seq<Member> {
        members(self.entries@)
    }
}

/// The members of an argument map; an absent map has none.
pub open spec fn supplied(arguments: Option<JsonObject>) -> Seq<Member> {
    match arguments {
        Some(map) => map@,
        None => Seq::empty(),
    }
}

/// The views of a sequence of values, element by element.
pub open spec fn views(items: Seq<JsonValue>) -> Seq<Json> {
    Seq::new(items.len(), |i: int| items[i]@)
}

/// `views` follows `push`.
pub proof fn lemma_views_push(items: Seq<JsonValue>, v: JsonValue)
    ensures
        views(items.push(v)) == views(items).push(v@),
{
}

/// An array is viewed element by element.
pub proof fn lemma_array_view(items: Vec<JsonValue>)
    ensures
        JsonValue::Array(items)@ == Json::Array(views(items@)),
{
    assert(JsonValue::Array(items)@->Array_0 =~= views(items@));
}

/// The members of a sequence of entries, element by element.
pub open spec fn members(entries: Seq<JsonEntry>) -> Seq<Member> {
    Seq::new(entries.len(), |i: int| Member { key: entries[i].key@, value: entries[i].value@ })
}

/// An object value is viewed as the object it holds.
pub proof fn lemma_object_view(object: JsonObject)
    ensures
        JsonValue::Object(object)@ == Json::Object(object@),
{
    assert(JsonValue::Object(object)@->Object_0 =~= object@);
}

/// A copy of `v`.
fn copy_value(v: &JsonValue) -> (r: JsonValue)
    ensures
        r@ == v@,
    decreases v,
{
    match v {
        JsonValue::Null => JsonValue::Null,
        JsonValue::Bool(b) => JsonValue::Bool(*b),
        JsonValue::Int(n) => JsonValue::Int(*n),
        JsonValue::UInt(n) => JsonValue::UInt(*n),
        JsonValue::Decimal(t) => JsonValue::Decimal(t.clone()),
        JsonValue::Text(t) => JsonValue::Text(t.clone()),
        JsonValue::Array(items) => {
            let mut out: Vec<JsonValue> = Vec::new();
            let mut i: usize = 0;
            while i < items.len()
                invariant
                    i <= items.len(),
                    *v == JsonValue::Array(*items),
                    out@.len() == i,
                    forall|k: int| 0 <= k < i ==> out@[k]@ == items@[k]@,
                decreases items.len() - i,
            {
                assert(decreases_to!(v => v->Array_0));
                let item = copy_value(&items[i]);
                out.push(item);
                i += 1;
            }
            proof {
                lemma_array_view(out);
                lemma_array_view(*items);
                assert(views(out@) =~= views(items@));
            }
            JsonValue::Array(out)
        },
        JsonValue::Object(object) => {
            let mut out: Vec<JsonEntry> = Vec::new();
            let mut i: usize = 0;
            while i < object.entries.len()
                invariant
                    i <= object.entries.len(),
                    *v == JsonValue::Object(*object),
                    out@.len() == i,
                    forall|k: int|
                        0 <= k < i ==> out@[k].key@ == object.entries@[k].key@ && out@[k].value@
                            == object.entries@[k].value@,
                decreases object.entries.len() - i,
            {
                assert(decreases_to!(v => v->Object_0));
                let entry = JsonEntry {
                    key: object.entries[i].key.clone(),
                    value: copy_value(&object.entries[i].value),
                };
                out.push(entry);
                i += 1;
            }
            let copy = JsonObject { entries: out };
            proof {
                lemma_object_view(copy);
                lemma_object_view(*object);
                assert(copy@ =~= object@);
            }
            JsonValue::Object(copy)
        },
    }
}

impl Clone for JsonObject {
    fn clone(&self) -> (r: Self)
        ensures
            r@ == self@,
    {
        let mut entries: Vec<JsonEntry> = Vec::new();
        let mut i: usize = 0;
        while i < self.entries.len()
            invariant
                i <= self.entries.len(),
                entries@.len() == i,
                forall|k: int|
                    0 <= k < i ==> entries@[k].key@ == self.entries@[k].key@ && entries@[k].value@
                        == self.entries@[k].value@,
            decreases self.entries.len() - i,
        {
            entries.push(
                JsonEntry {
                    key: self.entries[i].key.clone(),
                    value: copy_value(&self.entries[i].value),
                },
            );
            i += 1;
        }
        let r = JsonObject { entries };
        r
    }
}

impl Clone for JsonValue {
    fn clone(&self) -> (r: Self)
        ensures
            r@ == self@,
    {
        copy_value(self)
    }
}

impl JsonObject {
    /// An object without members.
    pub fn new() -> (r: JsonObject)
        ensures
            r@ == Seq::<Member>::empty(),
    {
        let r = JsonObject { entries: Vec::new() };
        r
    }

    /// The number of members.
    pub fn len(&self) -> (n: usize)
        ensures
            n == self@.len(),
    {
        self.entries.len()
    }

    /// Whether the object has no members.
    pub fn is_empty(&self) -> (r: bool)
        ensures
            r == (self@.len() == 0),
    {
        self.entries.len() == 0
    }

    /// The position of the first member named `key`, or the number of
    /// members where there is none.
    fn position(&self, key: &str) -> (i: usize)
        ensures
            i == key_index(self@, key@),
            i <= self.entries.len(),
    {
        let mut i: usize = 0;
        while i < self.entries.len()
            invariant
                i <= self.entries.len(),
                forall|j: int| 0 <= j < i ==> self@[j].key != key@,
            decreases self.entries.len() - i,
        {
            if str_eq(self.entries[i].key.as_str(), key) {
                proof {
                    lemma_key_index_is(self@, key@, i as int);
                }
                return i;
            }
            i += 1;
        }
        proof {
            lemma_key_index_is(self@, key@, i as int);
        }
        i
    }

    /// The value under `key`: that of the first member of that name.
    pub fn get(&self, key: &str) -> (r: Option<&JsonValue>)
        ensures
            match r {
                Some(v) => lookup(self@, key@) == Some(v@),
                None => lookup(self@, key@) is None,
            },
    {
        let i = self.position(key);
        if i < self.entries.len() {
            Some(&self.entries[i].value)
        } else {
            None
        }
    }

    /// Whether a member is named `key`.
    pub fn contains_key(&self, key: &str) -> (r: bool)
        ensures
            r == lookup(self@, key@).is_some(),
    {
        let i = self.position(key);
        i < self.entries.len()
    }

    /// Puts `value` under `key`, in place of the value that was there, or as a
    /// new last member.
    pub fn insert(&mut self, key: String, value: JsonValue)
        ensures
            final(self)@ == with_member(old(self)@, key@, value@),
    {
        let i = self.position(key.as_str());
        if i < self.entries.len() {
            self.entries.set(i, JsonEntry { key, value });
        } else {
            self.entries.push(JsonEntry { key, value });
        }
    }
}

impl JsonValue {
    /// The characters of a string value.
    pub fn as_str(&self) -> (r: Option<&str>)
        ensures
            match r {
                Some(t) => self@ == Json::Text(t@),
                None => !(self@ is Text),
            },
    {
        match self {
            JsonValue::Text(t) => Some(t.as_str()),
            _ => None,
        }
    }

    /// The truth value of a boolean.
    pub fn as_bool(&self) -> (r: Option<bool>)
        ensures
            match r {
                Some(b) => self@ == Json::Bool(b),
                None => !(self@ is Bool),
            },
    {
        match self {
            JsonValue::Bool(b) => Some(*b),
            _ => None,
        }
    }

    /// A whole number that is not negative and fits 64 bits.
    pub fn as_u64(&self) -> (r: Option<u64>)
        ensures
            match r {
                Some(n) => self@ == Json::Int(n as int),
                None => !(self@ matches Json::Int(n) && 0 <= n <= u64::MAX),
            },
    {
        match self {
            JsonValue::UInt(n) => Some(*n),
            JsonValue::Int(n) => if *n >= 0 {
                Some(*n as u64)
            } else {
                None
            },
            _ => None,
        }
    }

    /// The elements of an array.
    pub fn as_array(&self) -> (r: Option<&Vec<JsonValue>>)
        ensures
            match r {
                Some(items) => self@ == Json::Array(views(items@)),
                None => !(self@ is Array),
            },
    {
        match self {
            JsonValue::Array(items) => {
                proof {
                    lemma_array_view(*items);
                }
                Some(items)
            },
            _ => None,
        }
    }

    /// The members of an object.
    pub fn as_object(&self) -> (r: Option<&JsonObject>)
        ensures
            match r {
                Some(object) => self@ == Json::Object(object@),
                None => !(self@ is Object),
            },
    {
        match self {
            JsonValue::Object(object) => {
                proof {
                    lemma_object_view(*object);
                }
                Some(object)
            },
            _ => None,
        }
    }

    /// The member named `key`, where the value is an object that has one.
    pub fn get(&self, key: &str) -> (r: Option<&JsonValue>)
        ensures
            match r {
                Some(v) => self@.member(key@) == Some(v@),
                None => self@.member(key@) is None,
            },
    {
        match self.as_object() {
            Some(object) => object.get(key),
            None => None,
        }
    }
}

} // verus!
