//! Reading the bytes of a payload as a JSON document.

use vstd::prelude::*;

use crate::decode::{missing, none_before, Decode, Fields};
use crate::error::{DecodeError, DecodeErrorView, Expected, Failure, Fault};
use crate::json::{member, Json, JsonValue, Member, Numeral};
use crate::snapshot::{SyncSnapshot, SyncSnapshotView};

verus! {

/// `serde_json::Value`, the tree that the parser builds. It is only handed
/// from the parser to the conversion below; nothing is claimed of it.
#[verifier::external_type_specification]
#[verifier::external_body]
pub struct ExValue(serde_json::Value);

/// `serde_json::Number`, a number of that tree. Nothing is claimed of it.
#[verifier::external_type_specification]
#[verifier::external_body]
pub struct ExNumber(serde_json::Number);

/// The place in a text at which it ceased to be a JSON document: line and
/// column, both counted from one.
#[derive(Clone, Copy, Debug, PartialEq, Eq, Structural)]
pub struct Place {
    pub line: usize,
    pub column: usize,
}

/// The JSON document that the bytes spell, or the place at which they cease to
/// spell one: what `serde_json::from_slice` makes of the bytes. The grammar is
/// that of the parser and is not restated here.
pub uninterp spec fn json_document(bytes: Seq<u8>) -> Result<JsonValue, Place>;

/// `serde_json::Number::as_u64`, `as_i64` and `as_f64`: the number as it was
/// parsed, an integer where it was written as one that fits in 64 bits, else
/// the bits of its double. Nothing is claimed of the result.
#[verifier::external_body]
fn number_of(n: &serde_json::Number) -> Numeral {
    match (n.as_u64(), n.as_i64()) {
        (Some(u), _) => Numeral::Unsigned(u),
        (None, Some(i)) => Numeral::Negative(i),
        (None, None) => Numeral::Real(n.as_f64().unwrap_or_default().to_bits()),
    }
}

/// The variants of `serde_json::Value`, one for one, with the members of an
/// object in the order in which its map hands them out. Nothing is claimed of
/// the result.
#[verifier::external_body]
fn tree_of(value: serde_json::Value) -> Json {
    match value {
        serde_json::Value::Null => Json::Null,
        serde_json::Value::Bool(b) => Json::Bool(b),
        serde_json::Value::Number(n) => Json::Number(number_of(&n)),
        serde_json::Value::String(s) => Json::Text(s),
        serde_json::Value::Array(a) => Json::Array(a.into_iter().map(tree_of).collect()),
        serde_json::Value::Object(m) => Json::Object(
            m.into_iter().map(|(key, v)| Member { key, value: tree_of(v) }).collect(),
        ),
    }
}

/// `serde_json::from_slice` at `serde_json::Value`, with `Error::line` and
/// `Error::column`: the tree of the document that the bytes spell, or the line
/// and column that the error reports. The claim is that the outcome depends on
/// the bytes alone.
#[verifier::external_body]
fn read_document(bytes: &[u8]) -> (r: Result<Json, Place>)
    ensures
        match r {
            Ok(j) => json_document(bytes@) == Ok::<JsonValue, Place>(j.deep_view()),
            Err(place) => json_document(bytes@) == Err::<JsonValue, Place>(place),
        },
{
    match serde_json::from_slice::<serde_json::Value>(bytes) {
        Ok(value) => Ok(tree_of(value)),
        Err(e) => Err(Place { line: e.line(), column: e.column() }),
    }
}

/// `core::str::from_utf8`: it succeeds exactly on bytes that are UTF-8.
#[verifier::external_body]
fn is_utf8(bytes: &[u8]) -> (valid: bool)
    ensures
        valid == vstd::utf8::valid_utf8(bytes@),
{
    core::str::from_utf8(bytes).is_ok()
}

/// What parsing makes of a payload: its document, or a syntax fault at the
/// place where reading stopped.
pub open spec fn parsed(bytes: Seq<u8>) -> Result<JsonValue, DecodeErrorView> {
    match json_document(bytes) {
        Ok(v) => Ok(v),
        Err(place) => Err(
            DecodeErrorView::here(Fault::Syntax { line: place.line, column: place.column }),
        ),
    }
}

/// Parses a payload into the tree of its document.
pub fn parse(bytes: &[u8]) -> (r: Result<Json, DecodeError>)
    ensures
        crate::decode::outcome(r) == parsed(bytes@),
{
    match read_document(bytes) {
        Ok(j) => Ok(j),
        Err(place) => Err(DecodeError::here(Fault::Syntax { line: place.line, column: place.column })),
    }
}

/// What a payload of text decodes to: the snapshot of its document.
pub open spec fn decoded_text(bytes: Seq<u8>) -> Result<SyncSnapshotView, DecodeErrorView> {
    match parsed(bytes) {
        Ok(v) => SyncSnapshot::decoded(v),
        Err(e) => Err(e),
    }
}

/// A payload whose document is no record does not decode: the failure is a
/// mismatch at the root.
pub proof fn lemma_payload_not_a_record(bytes: Seq<u8>)
    requires
        json_document(bytes) matches Ok(v) && !(v is Object),
    ensures
        decoded_text(bytes) == Err::<SyncSnapshotView, DecodeErrorView>(
            DecodeErrorView::here(Fault::Mismatch(Expected::Record)),
        ),
{
}

/// A payload whose record lacks a required field of the snapshot does not
/// decode, and the failure names the field unless a field declared before it
/// fails.
pub proof fn lemma_payload_missing_field(bytes: Seq<u8>, fields: Fields, place: int)
    requires
        json_document(bytes) == Ok::<JsonValue, Place>(JsonValue::Object(fields)),
        SyncSnapshot::required_at(place),
        member(fields, SyncSnapshot::key_at(place)) is None,
    ensures
        decoded_text(bytes) is Err,
        none_before(SyncSnapshot::faults(fields), place) ==> decoded_text(bytes) == Err::<
            SyncSnapshotView,
            DecodeErrorView,
        >(missing(SyncSnapshot::key_at(place))),
{
    SyncSnapshot::lemma_missing_field(fields, place);
}

/// Decodes a payload: all of it, or nothing. Bytes that are not UTF-8 are an
/// encoding failure; text that is no JSON document, or whose document does not
/// fit the snapshot, is a decode failure.
pub fn decode(bytes: &[u8]) -> (r: Result<SyncSnapshot, Failure>)
    ensures
        match r {
            Ok(snapshot) => vstd::utf8::valid_utf8(bytes@) && decoded_text(bytes@) == Ok::<
                SyncSnapshotView,
                DecodeErrorView,
            >(snapshot.deep_view()),
            Err(Failure::Decode(e)) => vstd::utf8::valid_utf8(bytes@) && decoded_text(bytes@)
                == Err::<SyncSnapshotView, DecodeErrorView>(e.deep_view()),
            Err(Failure::Encoding) => !vstd::utf8::valid_utf8(bytes@),
            Err(Failure::Transport(_)) => false,
        },
{
    if !is_utf8(bytes) {
        return Err(Failure::Encoding);
    }
    match parse(bytes) {
        Err(e) => Err(Failure::Decode(e)),
        Ok(document) => match SyncSnapshot::decode(&document) {
            Ok(snapshot) => Ok(snapshot),
            Err(e) => Err(Failure::Decode(e)),
        },
    }
}

} // verus!
