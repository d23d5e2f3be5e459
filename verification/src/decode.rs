//! The decoding rules shared by every record: how a value of each primitive kind
//! is read, and the three presence policies of a record's fields.

use vstd::prelude::*;

use crate::error::{DecodeError, DecodeErrorView, Expected, Fault, Step, StepView};
use crate::json::{
    find, lemma_elements_model, member, members_model, model, Json, JsonValue, Member, Numeral,
};

verus! {

/// The members of an object, as the decoding rules see them.
pub type Fields = Seq<(Seq<char>, JsonValue)>;

/// The model of the result of a decode.
pub open spec fn outcome<T: DeepView>(r: Result<T, DecodeError>) -> Result<T::V, DecodeErrorView> {
    match r {
        Ok(value) => Ok(value.deep_view()),
        Err(e) => Err(e.deep_view()),
    }
}

/// A failure, seen from one step further out; a success, unchanged.
pub open spec fn placed<V>(step: StepView, r: Result<V, DecodeErrorView>) -> Result<
    V,
    DecodeErrorView,
> {
    match r {
        Ok(value) => Ok(value),
        Err(e) => Err(e.under(step)),
    }
}

/// A type that can be read from a JSON value.
pub trait Decode: Sized + DeepView {
    /// What the value decodes to: the model of the decoded value, or the failure.
    spec fn decoded(v: JsonValue) -> Result<Self::V, DecodeErrorView>;

    /// Decodes the value.
    fn decode(j: &Json) -> (r: Result<Self, DecodeError>)
        ensures
            outcome(r) == Self::decoded(j.deep_view()),
    ;
}

/// The members of a record: those of the object, and a mismatch for any other
/// value.
pub open spec fn record_of(v: JsonValue) -> Result<Fields, DecodeErrorView> {
    match v {
        JsonValue::Object(members) => Ok(members),
        _ => Err(DecodeErrorView::here(Fault::Mismatch(Expected::Record))),
    }
}

/// The failure of a required field that is absent: it names the field.
pub open spec fn missing(key: Seq<char>) -> DecodeErrorView {
    DecodeErrorView { fault: Fault::Missing, path: seq![StepView::Key(key)] }
}

/// A required field: its absence is a failure that names it.
pub open spec fn required_of<T: Decode>(fields: Fields, key: Seq<char>) -> Result<
    T::V,
    DecodeErrorView,
> {
    match member(fields, key) {
        Some(v) => placed(StepView::Key(key), T::decoded(v)),
        None => Err(missing(key)),
    }
}

/// An optional field: absent or `null`, it has no value.
pub open spec fn optional_of<T: Decode>(fields: Fields, key: Seq<char>) -> Result<
    Option<T::V>,
    DecodeErrorView,
> {
    match member(fields, key) {
        Some(JsonValue::Null) | None => Ok(None),
        Some(v) => match T::decoded(v) {
            Ok(value) => Ok(Some(value)),
            Err(e) => Err(e.under(StepView::Key(key))),
        },
    }
}

/// A field with a default: absent, it has the default; present, it is decoded
/// like a required one.
pub open spec fn defaulted_of<T: Decode>(fields: Fields, key: Seq<char>, default: T::V) -> Result<
    T::V,
    DecodeErrorView,
> {
    match member(fields, key) {
        Some(v) => placed(StepView::Key(key), T::decoded(v)),
        None => Ok(default),
    }
}

/// The failure of a result, if it is one.
pub open spec fn failure<V>(r: Result<V, DecodeErrorView>) -> Option<DecodeErrorView> {
    match r {
        Ok(_) => None,
        Err(e) => Some(e),
    }
}

/// The first failure among those of the fields from `start` on.
pub open spec fn first_failure_from(faults: Seq<Option<DecodeErrorView>>, start: int) -> Option<
    DecodeErrorView,
>
    decreases faults.len() - start,
{
    if start < 0 || start >= faults.len() {
        None
    } else if faults[start] is Some {
        faults[start]
    } else {
        first_failure_from(faults, start + 1)
    }
}

/// The failure of a record: that of the first of its fields that fails, the
/// fields taken in the order in which they are declared.
pub open spec fn first_failure(faults: Seq<Option<DecodeErrorView>>) -> Option<DecodeErrorView> {
    first_failure_from(faults, 0)
}

/// No field before a place fails.
pub open spec fn none_before(faults: Seq<Option<DecodeErrorView>>, place: int) -> bool {
    forall|k: int| 0 <= k < place ==> (#[trigger] faults[k]) is None
}

/// From a place on, the first failure is that of the first field that fails;
/// there is none exactly when no field fails.
pub proof fn lemma_first_failure_from(faults: Seq<Option<DecodeErrorView>>, start: int)
    requires
        0 <= start <= faults.len(),
    ensures
        first_failure_from(faults, start) is None <==> forall|i: int|
            start <= i < faults.len() ==> (#[trigger] faults[i]) is None,
        forall|i: int|
            start <= i < faults.len() && (#[trigger] faults[i]) is Some && (forall|k: int|
                start <= k < i ==> (#[trigger] faults[k]) is None) ==> first_failure_from(
                faults,
                start,
            ) == faults[i],
    decreases faults.len() - start,
{
    if start < faults.len() {
        lemma_first_failure_from(faults, start + 1);
        if faults[start] is Some {
            assert forall|i: int|
                start <= i < faults.len() && (#[trigger] faults[i]) is Some && (forall|k: int|
                    start <= k < i ==> (#[trigger] faults[k]) is None) implies first_failure_from(
                faults,
                start,
            ) == faults[i] by {
                if i > start {
                    assert(faults[start] is None);
                }
            }
        }
    }
}

/// A record fails exactly when one of its fields does, and then with the
/// failure of the first such field.
pub proof fn lemma_first_failure(faults: Seq<Option<DecodeErrorView>>)
    ensures
        first_failure(faults) is None <==> forall|i: int|
            0 <= i < faults.len() ==> (#[trigger] faults[i]) is None,
        forall|i: int|
            0 <= i < faults.len() && (#[trigger] faults[i]) is Some && (forall|k: int|
                0 <= k < i ==> (#[trigger] faults[k]) is None) ==> first_failure(faults)
                == faults[i],
{
    lemma_first_failure_from(faults, 0);
}

/// A required field that is absent fails, with a failure that names it.
pub proof fn lemma_absent_required<T: Decode>(fields: Fields, key: Seq<char>)
    requires
        member(fields, key) is None,
    ensures
        required_of::<T>(fields, key) == Err::<T::V, DecodeErrorView>(missing(key)),
{
}

/// An optional field that is absent or `null` has no value; a field with a
/// default that is absent has the default. Neither fails.
pub proof fn lemma_absent_optional<T: Decode>(fields: Fields, key: Seq<char>, default: T::V)
    ensures
        member(fields, key) is None || member(fields, key) == Some(JsonValue::Null)
            ==> optional_of::<T>(fields, key) == Ok::<Option<T::V>, DecodeErrorView>(None),
        member(fields, key) is None ==> defaulted_of::<T>(fields, key, default) == Ok::<
            T::V,
            DecodeErrorView,
        >(default),
{
}

/// Members that a record does not name change nothing: a field depends on
/// the member under its own key alone.
pub proof fn lemma_field_by_key<T: Decode>(a: Fields, b: Fields, key: Seq<char>, default: T::V)
    requires
        member(a, key) == member(b, key),
    ensures
        required_of::<T>(a, key) == required_of::<T>(b, key),
        optional_of::<T>(a, key) == optional_of::<T>(b, key),
        defaulted_of::<T>(a, key, default) == defaulted_of::<T>(b, key, default),
{
}

/// The elements of a list, decoded in order up to the first that fails.
pub open spec fn each_of<T: Decode>(items: Seq<JsonValue>) -> Result<Seq<T::V>, DecodeErrorView>
    decreases items.len(),
{
    if items.len() == 0 {
        Ok(Seq::empty())
    } else {
        match each_of::<T>(items.drop_last()) {
            Ok(front) => match T::decoded(items.last()) {
                Ok(value) => Ok(front.push(value)),
                Err(e) => Err(e.under(StepView::Index((items.len() - 1) as nat))),
            },
            Err(e) => Err(e),
        }
    }
}

/// A list decodes to as many values as it has elements, each the decoding of
/// the element at its place.
pub proof fn lemma_each_ok<T: Decode>(items: Seq<JsonValue>)
    requires
        each_of::<T>(items) is Ok,
    ensures
        each_of::<T>(items)->Ok_0.len() == items.len(),
        forall|i: int|
            0 <= i < items.len() ==> T::decoded(#[trigger] items[i]) == Ok::<T::V, DecodeErrorView>(
                each_of::<T>(items)->Ok_0[i],
            ),
    decreases items.len(),
{
    if items.len() > 0 {
        let front = items.drop_last();
        lemma_each_ok::<T>(front);
        assert forall|i: int| 0 <= i < items.len() implies T::decoded(#[trigger] items[i]) == Ok::<
            T::V,
            DecodeErrorView,
        >(each_of::<T>(items)->Ok_0[i]) by {
            if i < front.len() {
                assert(items[i] == front[i]);
            }
        }
    }
}

/// A list fails exactly when one of its elements does, and then with the
/// failure of the first such element, placed at its index.
pub proof fn lemma_each_err<T: Decode>(items: Seq<JsonValue>)
    ensures
        each_of::<T>(items) is Err <==> exists|i: int|
            0 <= i < items.len() && T::decoded(#[trigger] items[i]) is Err,
        each_of::<T>(items) matches Err(e) ==> exists|i: int|
            {
                &&& 0 <= i < items.len()
                &&& #[trigger] T::decoded(items[i]) is Err
                &&& e == T::decoded(items[i])->Err_0.under(StepView::Index(i as nat))
                &&& forall|k: int| 0 <= k < i ==> T::decoded(#[trigger] items[k]) is Ok
            },
    decreases items.len(),
{
    if items.len() > 0 {
        let front = items.drop_last();
        lemma_each_err::<T>(front);
        let last = items.len() - 1;
        if each_of::<T>(front) is Err {
            let i = choose|i: int|
                {
                    &&& 0 <= i < front.len()
                    &&& #[trigger] T::decoded(front[i]) is Err
                    &&& each_of::<T>(front)->Err_0 == T::decoded(front[i])->Err_0.under(
                        StepView::Index(i as nat),
                    )
                    &&& forall|k: int| 0 <= k < i ==> T::decoded(#[trigger] front[k]) is Ok
                };
            assert(items[i] == front[i]);
            assert forall|k: int| 0 <= k < i implies T::decoded(#[trigger] items[k]) is Ok by {
                assert(items[k] == front[k]);
            }
        } else if T::decoded(items.last()) is Err {
            assert(items[last] == items.last());
            assert forall|k: int| 0 <= k < last implies T::decoded(#[trigger] items[k]) is Ok by {
                assert(items[k] == front[k]);
                if T::decoded(front[k]) is Err {
                }
            }
        } else {
            assert forall|i: int| 0 <= i < items.len() implies !(T::decoded(
                #[trigger] items[i],
            ) is Err) by {
                if i < last {
                    assert(items[i] == front[i]);
                }
            }
        }
    }
}

/// Once a prefix of a list has failed, the list fails in the same way.
pub proof fn lemma_each_prefix<T: Decode>(items: Seq<JsonValue>, n: int)
    requires
        0 <= n <= items.len(),
        each_of::<T>(items.take(n)) is Err,
    ensures
        each_of::<T>(items) == each_of::<T>(items.take(n)),
    decreases items.len() - n,
{
    if n < items.len() {
        assert(items.take(n + 1).drop_last() =~= items.take(n));
        lemma_each_prefix::<T>(items, n + 1);
    } else {
        assert(items.take(n) =~= items);
    }
}

/// The members of a record.
pub fn record(j: &Json) -> (r: Result<&Vec<Member>, DecodeError>)
    ensures
        match r {
            Ok(members) => record_of(j.deep_view()) == Ok::<Fields, DecodeErrorView>(
                members_model(members@),
            ),
            Err(e) => record_of(j.deep_view()) == Err::<Fields, DecodeErrorView>(e.deep_view()),
        },
{
    match j.as_object() {
        Some(members) => Ok(members),
        None => Err(DecodeError::here(Fault::Mismatch(Expected::Record))),
    }
}

/// Reads a required field.
pub fn required<T: Decode>(members: &Vec<Member>, key: &str) -> (r: Result<T, DecodeError>)
    ensures
        outcome(r) == required_of::<T>(members_model(members@), key@),
{
    match find(members, key) {
        Some(value) => match T::decode(value) {
            Ok(decoded) => Ok(decoded),
            Err(e) => Err(e.under(Step::Key(key.to_owned()))),
        },
        None => {
            let e = DecodeError::here(Fault::Missing).under(Step::Key(key.to_owned()));
            assert(e.deep_view().path =~= missing(key@).path);
            Err(e)
        },
    }
}

/// Reads an optional field.
pub fn optional<T: Decode>(members: &Vec<Member>, key: &str) -> (r: Result<Option<T>, DecodeError>)
    ensures
        outcome(r) == optional_of::<T>(members_model(members@), key@),
{
    match find(members, key) {
        Some(Json::Null) | None => Ok(None),
        Some(value) => match T::decode(value) {
            Ok(decoded) => Ok(Some(decoded)),
            Err(e) => Err(e.under(Step::Key(key.to_owned()))),
        },
    }
}

/// Reads a field that has a default.
pub fn defaulted<T: Decode>(members: &Vec<Member>, key: &str, default: T) -> (r: Result<
    T,
    DecodeError,
>)
    ensures
        outcome(r) == defaulted_of::<T>(members_model(members@), key@, default.deep_view()),
{
    match find(members, key) {
        Some(value) => match T::decode(value) {
            Ok(decoded) => Ok(decoded),
            Err(e) => Err(e.under(Step::Key(key.to_owned()))),
        },
        None => Ok(default),
    }
}

/// Reads a list that is empty where its field is absent.
pub fn listed_or_empty<T: Decode>(members: &Vec<Member>, key: &str) -> (r: Result<
    Vec<T>,
    DecodeError,
>)
    ensures
        outcome(r) == defaulted_of::<Vec<T>>(members_model(members@), key@, Seq::empty()),
{
    let none: Vec<T> = Vec::new();
    assert(none.deep_view() =~= Seq::empty());
    defaulted::<Vec<T>>(members, key, none)
}

/// The integer that a value holds.
pub open spec fn integer_of(v: JsonValue) -> Result<int, DecodeErrorView> {
    match v {
        JsonValue::Number(n) => match n.integer() {
            Some(k) => Ok(k),
            None => Err(DecodeErrorView::here(Fault::Mismatch(Expected::Integer))),
        },
        _ => Err(DecodeErrorView::here(Fault::Mismatch(Expected::Integer))),
    }
}

/// The integer that a value holds, if it lies between two bounds.
pub open spec fn ranged_of(v: JsonValue, low: int, high: int) -> Result<int, DecodeErrorView> {
    match integer_of(v) {
        Ok(k) => if low <= k <= high {
            Ok(k)
        } else {
            Err(DecodeErrorView::here(Fault::OutOfRange))
        },
        Err(e) => Err(e),
    }
}

/// Reads the integer that a value holds.
pub fn integer(j: &Json) -> (r: Result<i128, DecodeError>)
    ensures
        match r {
            Ok(k) => integer_of(j.deep_view()) == Ok::<int, DecodeErrorView>(k as int),
            Err(e) => integer_of(j.deep_view()) == Err::<int, DecodeErrorView>(e.deep_view()),
        },
{
    match j {
        Json::Number(Numeral::Unsigned(u)) => Ok(*u as i128),
        Json::Number(Numeral::Negative(i)) => Ok(*i as i128),
        _ => Err(DecodeError::here(Fault::Mismatch(Expected::Integer))),
    }
}

/// Reads the integer that a value holds, if it lies between two bounds.
pub fn ranged(j: &Json, low: i128, high: i128) -> (r: Result<i128, DecodeError>)
    ensures
        match r {
            Ok(k) => ranged_of(j.deep_view(), low as int, high as int) == Ok::<int, DecodeErrorView>(
                k as int,
            ),
            Err(e) => ranged_of(j.deep_view(), low as int, high as int) == Err::<
                int,
                DecodeErrorView,
            >(e.deep_view()),
        },
{
    let k = integer(j)?;
    if low <= k && k <= high {
        Ok(k)
    } else {
        Err(DecodeError::here(Fault::OutOfRange))
    }
}

impl Decode for u64 {
    open spec fn decoded(v: JsonValue) -> Result<u64, DecodeErrorView> {
        match ranged_of(v, 0, u64::MAX as int) {
            Ok(k) => Ok(k as u64),
            Err(e) => Err(e),
        }
    }

    fn decode(j: &Json) -> (r: Result<u64, DecodeError>) {
        let k = ranged(j, 0, u64::MAX as i128)?;
        Ok(k as u64)
    }
}

impl Decode for i64 {
    open spec fn decoded(v: JsonValue) -> Result<i64, DecodeErrorView> {
        match ranged_of(v, i64::MIN as int, i64::MAX as int) {
            Ok(k) => Ok(k as i64),
            Err(e) => Err(e),
        }
    }

    fn decode(j: &Json) -> (r: Result<i64, DecodeError>) {
        let k = ranged(j, i64::MIN as i128, i64::MAX as i128)?;
        Ok(k as i64)
    }
}

impl Decode for u8 {
    open spec fn decoded(v: JsonValue) -> Result<u8, DecodeErrorView> {
        match ranged_of(v, 0, u8::MAX as int) {
            Ok(k) => Ok(k as u8),
            Err(e) => Err(e),
        }
    }

    fn decode(j: &Json) -> (r: Result<u8, DecodeError>) {
        let k = ranged(j, 0, u8::MAX as i128)?;
        Ok(k as u8)
    }
}

impl Decode for i8 {
    open spec fn decoded(v: JsonValue) -> Result<i8, DecodeErrorView> {
        match ranged_of(v, i8::MIN as int, i8::MAX as int) {
            Ok(k) => Ok(k as i8),
            Err(e) => Err(e),
        }
    }

    fn decode(j: &Json) -> (r: Result<i8, DecodeError>) {
        let k = ranged(j, i8::MIN as i128, i8::MAX as i128)?;
        Ok(k as i8)
    }
}

impl Decode for Numeral {
    open spec fn decoded(v: JsonValue) -> Result<Numeral, DecodeErrorView> {
        match v {
            JsonValue::Number(n) => Ok(n),
            _ => Err(DecodeErrorView::here(Fault::Mismatch(Expected::Number))),
        }
    }

    fn decode(j: &Json) -> (r: Result<Numeral, DecodeError>) {
        match j {
            Json::Number(n) => Ok(*n),
            _ => Err(DecodeError::here(Fault::Mismatch(Expected::Number))),
        }
    }
}

impl Decode for bool {
    open spec fn decoded(v: JsonValue) -> Result<bool, DecodeErrorView> {
        match v {
            JsonValue::Bool(b) => Ok(b),
            _ => Err(DecodeErrorView::here(Fault::Mismatch(Expected::Boolean))),
        }
    }

    fn decode(j: &Json) -> (r: Result<bool, DecodeError>) {
        match j {
            Json::Bool(b) => Ok(*b),
            _ => Err(DecodeError::here(Fault::Mismatch(Expected::Boolean))),
        }
    }
}

impl Decode for String {
    open spec fn decoded(v: JsonValue) -> Result<Seq<char>, DecodeErrorView> {
        match v {
            JsonValue::Text(s) => Ok(s),
            _ => Err(DecodeErrorView::here(Fault::Mismatch(Expected::Text))),
        }
    }

    fn decode(j: &Json) -> (r: Result<String, DecodeError>) {
        match j {
            Json::Text(s) => Ok(s.clone()),
            _ => Err(DecodeError::here(Fault::Mismatch(Expected::Text))),
        }
    }
}

impl<T: Decode> Decode for Vec<T> {
    open spec fn decoded(v: JsonValue) -> Result<Seq<T::V>, DecodeErrorView> {
        match v {
            JsonValue::Array(items) => each_of::<T>(items),
            _ => Err(DecodeErrorView::here(Fault::Mismatch(Expected::List))),
        }
    }

    fn decode(j: &Json) -> (r: Result<Vec<T>, DecodeError>) {
        match j.as_array() {
            None => Err(DecodeError::here(Fault::Mismatch(Expected::List))),
            Some(items) => {
                let ghost all = crate::json::elements_model(items@);
                let mut out: Vec<T> = Vec::new();
                let mut i: usize = 0;
                proof {
                    lemma_elements_model(items@);
                    assert(all.take(0) =~= Seq::empty());
                    assert(out.deep_view() =~= Seq::empty());
                }
                while i < items.len()
                    invariant
                        i <= items@.len(),
                        all.len() == items@.len(),
                        forall|k: int| 0 <= k < all.len() ==> #[trigger] all[k] == model(items@[k]),
                        each_of::<T>(all.take(i as int)) == Ok::<Seq<T::V>, DecodeErrorView>(
                            out.deep_view(),
                        ),
                        j.deep_view() == JsonValue::Array(all),
                    decreases items@.len() - i,
                {
                    proof {
                        assert(all.take(i + 1).drop_last() =~= all.take(i as int));
                        assert(all.take(i + 1).last() == all[i as int]);
                    }
                    match T::decode(&items[i]) {
                        Ok(value) => {
                            let ghost before = out.deep_view();
                            out.push(value);
                            assert(out.deep_view() =~= before.push(value.deep_view()));
                        },
                        Err(e) => {
                            proof {
                                lemma_each_prefix::<T>(all, i + 1);
                            }
                            return Err(e.under(Step::Index(i)));
                        },
                    }
                    i += 1;
                }
                assert(all.take(i as int) =~= all);
                Ok(out)
            },
        }
    }
}

} // verus!
