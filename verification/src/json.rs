//! The tree of JSON values that the decoder reads, and its mathematical model.

use vstd::prelude::*;

verus! {

/// A JSON number, kept exactly: an integer in one of two 64-bit ranges, or the
/// bit pattern of the double that stands for any other number.
#[derive(Clone, Copy, Debug, PartialEq, Eq, Structural)]
pub enum Numeral {
    /// An integer from zero up.
    Unsigned(u64),
    /// An integer below zero.
    Negative(i64),
    /// Any other number: the bits of the double that stands for it.
    Real(u64),
}

impl DeepView for Numeral {
    type V = Numeral;

    open spec fn deep_view(&self) -> Numeral {
        *self
    }
}

/// One member of a JSON object.
#[derive(Debug, PartialEq, Eq)]
pub struct Member {
    pub key: String,
    pub value: Json,
}

/// A JSON value.
#[derive(Debug, PartialEq, Eq)]
pub enum Json {
    Null,
    Bool(bool),
    Number(Numeral),
    Text(String),
    Array(Vec<Json>),
    Object(Vec<Member>),
}

/// The mathematical model of a JSON value.
pub enum JsonValue {
    Null,
    Bool(bool),
    Number(Numeral),
    Text(Seq<char>),
    Array(Seq<JsonValue>),
    Object(Seq<(Seq<char>, JsonValue)>),
}

/// The model of a JSON value: the same tree over sequences.
pub open spec fn model(j: Json) -> JsonValue
    decreases j, 0nat,
{
    match j {
        Json::Null => JsonValue::Null,
        Json::Bool(b) => JsonValue::Bool(b),
        Json::Number(n) => JsonValue::Number(n),
        Json::Text(s) => JsonValue::Text(s@),
        Json::Array(items) => JsonValue::Array(elements_model(items@)),
        Json::Object(members) => JsonValue::Object(members_model(members@)),
    }
}

/// The model of an array's elements, in their order.
pub open spec fn elements_model(items: Seq<Json>) -> Seq<JsonValue>
    decreases items, 1nat,
{
    if items.len() == 0 {
        Seq::empty()
    } else {
        elements_model(items.drop_last()).push(model(items.last()))
    }
}

/// The model of an object's members, in their order.
pub open spec fn members_model(members: Seq<Member>) -> Seq<(Seq<char>, JsonValue)>
    decreases members, 1nat,
{
    if members.len() == 0 {
        Seq::empty()
    } else {
        members_model(members.drop_last()).push((members.last().key@, model(members.last().value)))
    }
}

impl DeepView for Json {
    type V = JsonValue;

    open spec fn deep_view(&self) -> JsonValue {
        model(*self)
    }
}

/// The model of an array has the model of each element at its place.
pub proof fn lemma_elements_model(items: Seq<Json>)
    ensures
        elements_model(items).len() == items.len(),
        forall|i: int| 0 <= i < items.len() ==> #[trigger] elements_model(items)[i] == model(items[i]),
    decreases items.len(),
{
    if items.len() > 0 {
        lemma_elements_model(items.drop_last());
    }
}

/// The model of an object has each member's key and model at its place.
pub proof fn lemma_members_model(members: Seq<Member>)
    ensures
        members_model(members).len() == members.len(),
        forall|i: int| 0 <= i < members.len() ==> #[trigger] members_model(members)[i] == (
            members[i].key@,
            model(members[i].value),
        ),
    decreases members.len(),
{
    if members.len() > 0 {
        lemma_members_model(members.drop_last());
    }
}

/// The value under `key`: that of the first member with this key.
pub open spec fn member(members: Seq<(Seq<char>, JsonValue)>, key: Seq<char>) -> Option<JsonValue>
    decreases members.len(),
{
    if members.len() == 0 {
        None
    } else if members[0].0 == key {
        Some(members[0].1)
    } else {
        member(members.drop_first(), key)
    }
}

impl Numeral {
    /// The integer that the number denotes, if it was written as one.
    pub open spec fn integer(self) -> Option<int> {
        match self {
            Numeral::Unsigned(u) => Some(u as int),
            Numeral::Negative(i) => Some(i as int),
            Numeral::Real(_) => None,
        }
    }
}

/// Whether two strings hold the same characters.
pub fn text_eq(a: &str, b: &str) -> (same: bool)
    ensures
        same == (a@ == b@),
{
    let x = a.as_bytes();
    let y = b.as_bytes();
    if x.len() != y.len() {
        return false;
    }
    let mut i: usize = 0;
    while i < x.len()
        invariant
            i <= x@.len(),
            x@.len() == y@.len(),
            x@ == vstd::utf8::encode_utf8(a@),
            y@ == vstd::utf8::encode_utf8(b@),
            forall|k: int| 0 <= k < i ==> x@[k] == y@[k],
        decreases x@.len() - i,
    {
        if x[i] != y[i] {
            assert(x@ != y@);
            return false;
        }
        i += 1;
    }
    proof {
        assert(x@ =~= y@);
        vstd::utf8::encode_utf8_decode_utf8(a@);
        vstd::utf8::encode_utf8_decode_utf8(b@);
    }
    true
}

impl Json {
    /// The members, if the value is an object.
    pub fn as_object(&self) -> (r: Option<&Vec<Member>>)
        ensures
            match r {
                Some(members) => self.deep_view() == JsonValue::Object(members_model(members@)),
                None => !(self.deep_view() is Object),
            },
    {
        match self {
            Json::Object(members) => Some(members),
            _ => None,
        }
    }

    /// The elements, if the value is an array.
    pub fn as_array(&self) -> (r: Option<&Vec<Json>>)
        ensures
            match r {
                Some(items) => self.deep_view() == JsonValue::Array(elements_model(items@)),
                None => !(self.deep_view() is Array),
            },
    {
        match self {
            Json::Array(items) => Some(items),
            _ => None,
        }
    }
}

/// Looks a key up among the members of an object.
pub fn find<'a>(members: &'a Vec<Member>, key: &str) -> (r: Option<&'a Json>)
    ensures
        match r {
            Some(value) => member(members_model(members@), key@) == Some(value.deep_view()),
            None => member(members_model(members@), key@) is None,
        },
{
    let ghost all = members_model(members@);
    let mut i: usize = 0;
    proof {
        lemma_members_model(members@);
        assert(all.skip(0) =~= all);
    }
    while i < members.len()
        invariant
            i <= members@.len(),
            all == members_model(members@),
            all.len() == members@.len(),
            forall|k: int|
                0 <= k < all.len() ==> #[trigger] all[k] == (
                    members@[k].key@,
                    model(members@[k].value),
                ),
            member(all, key@) == member(all.skip(i as int), key@),
        decreases members@.len() - i,
    {
        let ghost rest = all.skip(i as int);
        assert(rest[0] == all[i as int]);
        assert(rest.drop_first() =~= all.skip(i + 1));
        if text_eq(members[i].key.as_str(), key) {
            return Some(&members[i].value);
        }
        i += 1;
    }
    assert(all.skip(i as int).len() == 0);
    None
}

} // verus!
