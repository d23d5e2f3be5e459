//! Labels and filters.

use vstd::prelude::*;

use crate::codes::{Color, Flag};
use crate::decode::{
    Decode, failure, Fields, first_failure, first_failure_from, lemma_absent_required,
    lemma_first_failure, missing, none_before, record, record_of, required, required_of,
};
use crate::error::{DecodeError, DecodeErrorView};
use crate::ids::{FilterId, LabelId};
use crate::json::{Json, JsonValue, member, members_model};
use crate::orders::Order;

verus! {

/// A label that items can carry.
#[derive(Debug, PartialEq, Eq)]
pub struct Label {
    /// The identifier of the label.
    pub id: LabelId,
    /// The name.
    pub name: String,
    /// The colour.
    pub color: Color,
    /// The rank among the labels.
    pub item_order: Order,
    /// Whether the label is deleted.
    pub is_deleted: Flag,
    /// Whether the label is a favourite.
    pub is_favorite: Flag,
}

/// The model of [`Label`].
pub struct LabelView {
    pub id: LabelId,
    pub name: Seq<char>,
    pub color: Color,
    pub item_order: Order,
    pub is_deleted: Flag,
    pub is_favorite: Flag,
}

impl DeepView for Label {
    type V = LabelView;

    open spec fn deep_view(&self) -> LabelView {
        LabelView {
            id: self.id.deep_view(),
            name: self.name.deep_view(),
            color: self.color.deep_view(),
            item_order: self.item_order.deep_view(),
            is_deleted: self.is_deleted.deep_view(),
            is_favorite: self.is_favorite.deep_view(),
        }
    }
}

impl Label {
    /// The failure of each field, in the order in which the fields are declared.
    pub open spec fn faults(fields: Fields) -> Seq<Option<DecodeErrorView>> {
        seq![
            failure(required_of::<LabelId>(fields, "id"@)),
            failure(required_of::<String>(fields, "name"@)),
            failure(required_of::<Color>(fields, "color"@)),
            failure(required_of::<Order>(fields, "item_order"@)),
            failure(required_of::<Flag>(fields, "is_deleted"@)),
            failure(required_of::<Flag>(fields, "is_favorite"@)),
        ]
    }

    /// The record that the fields make where none of them fails.
    pub open spec fn assembled(fields: Fields) -> LabelView {
        LabelView {
            id: required_of::<LabelId>(fields, "id"@)->Ok_0,
            name: required_of::<String>(fields, "name"@)->Ok_0,
            color: required_of::<Color>(fields, "color"@)->Ok_0,
            item_order: required_of::<Order>(fields, "item_order"@)->Ok_0,
            is_deleted: required_of::<Flag>(fields, "is_deleted"@)->Ok_0,
            is_favorite: required_of::<Flag>(fields, "is_favorite"@)->Ok_0,
        }
    }

    /// The key of the field at a place, the fields counted from zero as they
    /// are declared.
    pub open spec fn key_at(place: int) -> Seq<char> {
        if place == 0 {
            "id"@
        } else if place == 1 {
            "name"@
        } else if place == 2 {
            "color"@
        } else if place == 3 {
            "item_order"@
        } else if place == 4 {
            "is_deleted"@
        } else {
            "is_favorite"@
        }
    }

    /// Whether the field at a place is required.
    pub open spec fn required_at(place: int) -> bool {
        place == 0 || place == 1 || place == 2 || place == 3 || place == 4 || place == 5
    }

    /// A record that lacks a required field does not decode. Since a record
    /// fails as the first of its fields that fails, the failure names the
    /// lacking field unless a field declared before it fails.
    pub proof fn lemma_missing_field(fields: Fields, place: int)
        requires
            Label::required_at(place),
            member(fields, Label::key_at(place)) is None,
        ensures
            Label::decoded(JsonValue::Object(fields)) is Err,
            none_before(Label::faults(fields), place) ==> Label::decoded(JsonValue::Object(fields))
                == Err::<LabelView, DecodeErrorView>(missing(Label::key_at(place))),
    {
        let key = Label::key_at(place);
        lemma_first_failure(Label::faults(fields));
        if place == 0 {
            lemma_absent_required::<LabelId>(fields, key);
            assert(Label::faults(fields)[0] == Some(missing(key)));
        } else if place == 1 {
            lemma_absent_required::<String>(fields, key);
            assert(Label::faults(fields)[1] == Some(missing(key)));
        } else if place == 2 {
            lemma_absent_required::<Color>(fields, key);
            assert(Label::faults(fields)[2] == Some(missing(key)));
        } else if place == 3 {
            lemma_absent_required::<Order>(fields, key);
            assert(Label::faults(fields)[3] == Some(missing(key)));
        } else if place == 4 {
            lemma_absent_required::<Flag>(fields, key);
            assert(Label::faults(fields)[4] == Some(missing(key)));
        } else if place == 5 {
            lemma_absent_required::<Flag>(fields, key);
            assert(Label::faults(fields)[5] == Some(missing(key)));
        }
    }
}

impl Decode for Label {
    open spec fn decoded(v: JsonValue) -> Result<LabelView, DecodeErrorView> {
        match record_of(v) {
            Ok(fields) => match first_failure(Label::faults(fields)) {
                Some(e) => Err(e),
                None => Ok(Label::assembled(fields)),
            },
            Err(e) => Err(e),
        }
    }

    fn decode(j: &Json) -> (r: Result<Label, DecodeError>) {
        let fields = record(j)?;
        let ghost faults = Label::faults(members_model(fields@));
        let id = required::<LabelId>(fields, "id")?;
        assert(first_failure(faults) == first_failure_from(faults, 1));
        let name = required::<String>(fields, "name")?;
        assert(first_failure(faults) == first_failure_from(faults, 2));
        let color = required::<Color>(fields, "color")?;
        assert(first_failure(faults) == first_failure_from(faults, 3));
        let item_order = required::<Order>(fields, "item_order")?;
        assert(first_failure(faults) == first_failure_from(faults, 4));
        let is_deleted = required::<Flag>(fields, "is_deleted")?;
        assert(first_failure(faults) == first_failure_from(faults, 5));
        let is_favorite = required::<Flag>(fields, "is_favorite")?;
        assert(first_failure(faults) == first_failure_from(faults, 6));
        Ok(Label {
            id,
            name,
            color,
            item_order,
            is_deleted,
            is_favorite,
        })
    }
}

/// A stored query.
#[derive(Debug, PartialEq, Eq)]
pub struct Filter {
    /// The identifier of the filter.
    pub id: FilterId,
    /// The name.
    pub name: String,
    /// The query.
    pub query: String,
    /// The colour.
    pub color: Color,
    /// The rank among the filters.
    pub item_order: Order,
    /// Whether the filter is deleted.
    pub is_deleted: Flag,
    /// Whether the filter is a favourite.
    pub is_favorite: Flag,
}

/// The model of [`Filter`].
pub struct FilterView {
    pub id: FilterId,
    pub name: Seq<char>,
    pub query: Seq<char>,
    pub color: Color,
    pub item_order: Order,
    pub is_deleted: Flag,
    pub is_favorite: Flag,
}

impl DeepView for Filter {
    type V = FilterView;

    open spec fn deep_view(&self) -> FilterView {
        FilterView {
            id: self.id.deep_view(),
            name: self.name.deep_view(),
            query: self.query.deep_view(),
            color: self.color.deep_view(),
            item_order: self.item_order.deep_view(),
            is_deleted: self.is_deleted.deep_view(),
            is_favorite: self.is_favorite.deep_view(),
        }
    }
}

impl Filter {
    /// The failure of each field, in the order in which the fields are declared.
    pub open spec fn faults(fields: Fields) -> Seq<Option<DecodeErrorView>> {
        seq![
            failure(required_of::<FilterId>(fields, "id"@)),
            failure(required_of::<String>(fields, "name"@)),
            failure(required_of::<String>(fields, "query"@)),
            failure(required_of::<Color>(fields, "color"@)),
            failure(required_of::<Order>(fields, "item_order"@)),
            failure(required_of::<Flag>(fields, "is_deleted"@)),
            failure(required_of::<Flag>(fields, "is_favorite"@)),
        ]
    }

    /// The record that the fields make where none of them fails.
    pub open spec fn assembled(fields: Fields) -> FilterView {
        FilterView {
            id: required_of::<FilterId>(fields, "id"@)->Ok_0,
            name: required_of::<String>(fields, "name"@)->Ok_0,
            query: required_of::<String>(fields, "query"@)->Ok_0,
            color: required_of::<Color>(fields, "color"@)->Ok_0,
            item_order: required_of::<Order>(fields, "item_order"@)->Ok_0,
            is_deleted: required_of::<Flag>(fields, "is_deleted"@)->Ok_0,
            is_favorite: required_of::<Flag>(fields, "is_favorite"@)->Ok_0,
        }
    }

    /// The key of the field at a place, the fields counted from zero as they
    /// are declared.
    pub open spec fn key_at(place: int) -> Seq<char> {
        if place == 0 {
            "id"@
        } else if place == 1 {
            "name"@
        } else if place == 2 {
            "query"@
        } else if place == 3 {
            "color"@
        } else if place == 4 {
            "item_order"@
        } else if place == 5 {
            "is_deleted"@
        } else {
            "is_favorite"@
        }
    }

    /// Whether the field at a place is required.
    pub open spec fn required_at(place: int) -> bool {
        place == 0 || place == 1 || place == 2 || place == 3 || place == 4 || place == 5
            || place == 6
    }

    /// A record that lacks a required field does not decode. Since a record
    /// fails as the first of its fields that fails, the failure names the
    /// lacking field unless a field declared before it fails.
    pub proof fn lemma_missing_field(fields: Fields, place: int)
        requires
            Filter::required_at(place),
            member(fields, Filter::key_at(place)) is None,
        ensures
            Filter::decoded(JsonValue::Object(fields)) is Err,
            none_before(Filter::faults(fields), place) ==> Filter::decoded(JsonValue::Object(fields))
                == Err::<FilterView, DecodeErrorView>(missing(Filter::key_at(place))),
    {
        let key = Filter::key_at(place);
        lemma_first_failure(Filter::faults(fields));
        if place == 0 {
            lemma_absent_required::<FilterId>(fields, key);
            assert(Filter::faults(fields)[0] == Some(missing(key)));
        } else if place == 1 {
            lemma_absent_required::<String>(fields, key);
            assert(Filter::faults(fields)[1] == Some(missing(key)));
        } else if place == 2 {
            lemma_absent_required::<String>(fields, key);
            assert(Filter::faults(fields)[2] == Some(missing(key)));
        } else if place == 3 {
            lemma_absent_required::<Color>(fields, key);
            assert(Filter::faults(fields)[3] == Some(missing(key)));
        } else if place == 4 {
            lemma_absent_required::<Order>(fields, key);
            assert(Filter::faults(fields)[4] == Some(missing(key)));
        } else if place == 5 {
            lemma_absent_required::<Flag>(fields, key);
            assert(Filter::faults(fields)[5] == Some(missing(key)));
        } else if place == 6 {
            lemma_absent_required::<Flag>(fields, key);
            assert(Filter::faults(fields)[6] == Some(missing(key)));
        }
    }
}

impl Decode for Filter {
    open spec fn decoded(v: JsonValue) -> Result<FilterView, DecodeErrorView> {
        match record_of(v) {
            Ok(fields) => match first_failure(Filter::faults(fields)) {
                Some(e) => Err(e),
                None => Ok(Filter::assembled(fields)),
            },
            Err(e) => Err(e),
        }
    }

    fn decode(j: &Json) -> (r: Result<Filter, DecodeError>) {
        let fields = record(j)?;
        let ghost faults = Filter::faults(members_model(fields@));
        let id = required::<FilterId>(fields, "id")?;
        assert(first_failure(faults) == first_failure_from(faults, 1));
        let name = required::<String>(fields, "name")?;
        assert(first_failure(faults) == first_failure_from(faults, 2));
        let query = required::<String>(fields, "query")?;
        assert(first_failure(faults) == first_failure_from(faults, 3));
        let color = required::<Color>(fields, "color")?;
        assert(first_failure(faults) == first_failure_from(faults, 4));
        let item_order = required::<Order>(fields, "item_order")?;
        assert(first_failure(faults) == first_failure_from(faults, 5));
        let is_deleted = required::<Flag>(fields, "is_deleted")?;
        assert(first_failure(faults) == first_failure_from(faults, 6));
        let is_favorite = required::<Flag>(fields, "is_favorite")?;
        assert(first_failure(faults) == first_failure_from(faults, 7));
        Ok(Filter {
            id,
            name,
            query,
            color,
            item_order,
            is_deleted,
            is_favorite,
        })
    }
}

} // verus!
