//! Items, the tasks of the service, and their due dates.

use vstd::prelude::*;

use crate::codes::{Flag, Priority};
use crate::decode::{
    Decode, failure, Fields, first_failure, first_failure_from, lemma_absent_required,
    lemma_first_failure, missing, none_before, optional, optional_of, record, record_of, required,
    required_of,
};
use crate::error::{DecodeError, DecodeErrorView};
use crate::ids::{ItemId, ItemSyncId, LabelId, ProjectId, SectionId, UserId};
use crate::json::{Json, JsonValue, member, members_model};
use crate::names::Language;
use crate::orders::Order;

verus! {

/// The due date of an item.
#[derive(Debug, PartialEq, Eq)]
pub struct Date {
    /// The date, or the date and time.
    pub date: String,
    /// The time zone of a due time.
    pub timezone: Option<String>,
    /// The date as the user wrote it.
    pub string: String,
    /// The language in which the user wrote it.
    pub lang: Language,
    /// Whether the date recurs.
    pub is_recurring: bool,
}

/// The model of [`Date`].
pub struct DateView {
    pub date: Seq<char>,
    pub timezone: Option<Seq<char>>,
    pub string: Seq<char>,
    pub lang: Language,
    pub is_recurring: bool,
}

impl DeepView for Date {
    type V = DateView;

    open spec fn deep_view(&self) -> DateView {
        DateView {
            date: self.date.deep_view(),
            timezone: self.timezone.deep_view(),
            string: self.string.deep_view(),
            lang: self.lang.deep_view(),
            is_recurring: self.is_recurring.deep_view(),
        }
    }
}

impl Date {
    /// The failure of each field, in the order in which the fields are declared.
    pub open spec fn faults(fields: Fields) -> Seq<Option<DecodeErrorView>> {
        seq![
            failure(required_of::<String>(fields, "date"@)),
            failure(optional_of::<String>(fields, "timezone"@)),
            failure(required_of::<String>(fields, "string"@)),
            failure(required_of::<Language>(fields, "lang"@)),
            failure(required_of::<bool>(fields, "is_recurring"@)),
        ]
    }

    /// The record that the fields make where none of them fails.
    pub open spec fn assembled(fields: Fields) -> DateView {
        DateView {
            date: required_of::<String>(fields, "date"@)->Ok_0,
            timezone: optional_of::<String>(fields, "timezone"@)->Ok_0,
            string: required_of::<String>(fields, "string"@)->Ok_0,
            lang: required_of::<Language>(fields, "lang"@)->Ok_0,
            is_recurring: required_of::<bool>(fields, "is_recurring"@)->Ok_0,
        }
    }

    /// The key of the field at a place, the fields counted from zero as they
    /// are declared.
    pub open spec fn key_at(place: int) -> Seq<char> {
        if place == 0 {
            "date"@
        } else if place == 1 {
            "timezone"@
        } else if place == 2 {
            "string"@
        } else if place == 3 {
            "lang"@
        } else {
            "is_recurring"@
        }
    }

    /// Whether the field at a place is required.
    pub open spec fn required_at(place: int) -> bool {
        place == 0 || place == 2 || place == 3 || place == 4
    }

    /// A record that lacks a required field does not decode. Since a record
    /// fails as the first of its fields that fails, the failure names the
    /// lacking field unless a field declared before it fails.
    pub proof fn lemma_missing_field(fields: Fields, place: int)
        requires
            Date::required_at(place),
            member(fields, Date::key_at(place)) is None,
        ensures
            Date::decoded(JsonValue::Object(fields)) is Err,
            none_before(Date::faults(fields), place) ==> Date::decoded(JsonValue::Object(fields))
                == Err::<DateView, DecodeErrorView>(missing(Date::key_at(place))),
    {
        let key = Date::key_at(place);
        lemma_first_failure(Date::faults(fields));
        if place == 0 {
            lemma_absent_required::<String>(fields, key);
            assert(Date::faults(fields)[0] == Some(missing(key)));
        } else if place == 2 {
            lemma_absent_required::<String>(fields, key);
            assert(Date::faults(fields)[2] == Some(missing(key)));
        } else if place == 3 {
            lemma_absent_required::<Language>(fields, key);
            assert(Date::faults(fields)[3] == Some(missing(key)));
        } else if place == 4 {
            lemma_absent_required::<bool>(fields, key);
            assert(Date::faults(fields)[4] == Some(missing(key)));
        }
    }

    /// A record with none of its optional members decodes whenever its required
    /// fields do, and then every optional field has no value and every field
    /// with a default has its default.
    pub proof fn lemma_minimal(fields: Fields)
        requires
            member(fields, "timezone"@) is None,
            required_of::<String>(fields, "date"@) is Ok,
            required_of::<String>(fields, "string"@) is Ok,
            required_of::<Language>(fields, "lang"@) is Ok,
            required_of::<bool>(fields, "is_recurring"@) is Ok,
        ensures
            Date::decoded(JsonValue::Object(fields)) is Ok,
            Date::decoded(JsonValue::Object(fields))->Ok_0.timezone is None,
    {
        lemma_first_failure(Date::faults(fields));
    }
}

impl Decode for Date {
    open spec fn decoded(v: JsonValue) -> Result<DateView, DecodeErrorView> {
        match record_of(v) {
            Ok(fields) => match first_failure(Date::faults(fields)) {
                Some(e) => Err(e),
                None => Ok(Date::assembled(fields)),
            },
            Err(e) => Err(e),
        }
    }

    fn decode(j: &Json) -> (r: Result<Date, DecodeError>) {
        let fields = record(j)?;
        let ghost faults = Date::faults(members_model(fields@));
        let date = required::<String>(fields, "date")?;
        assert(first_failure(faults) == first_failure_from(faults, 1));
        let timezone = optional::<String>(fields, "timezone")?;
        assert(first_failure(faults) == first_failure_from(faults, 2));
        let string = required::<String>(fields, "string")?;
        assert(first_failure(faults) == first_failure_from(faults, 3));
        let lang = required::<Language>(fields, "lang")?;
        assert(first_failure(faults) == first_failure_from(faults, 4));
        let is_recurring = required::<bool>(fields, "is_recurring")?;
        assert(first_failure(faults) == first_failure_from(faults, 5));
        Ok(Date {
            date,
            timezone,
            string,
            lang,
            is_recurring,
        })
    }
}

/// An item: a task.
#[derive(Debug, PartialEq, Eq)]
pub struct Item {
    /// The identifier of the item.
    pub id: ItemId,
    /// The owner.
    pub user_id: UserId,
    /// The project of the item.
    pub project_id: ProjectId,
    /// The text of the task.
    pub content: String,
    /// The due date; absent, the item has none.
    pub due: Option<Date>,
    /// The priority.
    pub priority: Priority,
    /// The item that this one is a sub-task of.
    pub parent_id: Option<ItemId>,
    /// The rank among the items under the same parent.
    pub child_order: Order,
    /// The section of the item.
    pub section_id: Option<SectionId>,
    /// The rank in the daily agenda.
    pub day_order: Order,
    /// Whether the sub-tasks are hidden.
    pub collapsed: Flag,
    /// The labels; a label need not be in the snapshot.
    pub labels: Vec<LabelId>,
    /// The user who added the item.
    pub added_by_uid: Option<UserId>,
    /// The user who assigned the item.
    pub assigned_by_uid: Option<UserId>,
    /// The user who is to do the task.
    pub responsible_uid: Option<UserId>,
    /// Whether the task is done.
    pub checked: Flag,
    /// Whether the item has moved to the history.
    pub in_history: Flag,
    /// Whether the item is deleted.
    pub is_deleted: Flag,
    /// The identifier shared by the accounts of a shared project.
    pub sync_id: Option<ItemSyncId>,
    /// When the task was done.
    pub date_completed: Option<String>,
    /// When the item was added.
    pub date_added: String,
}

/// The model of [`Item`].
pub struct ItemView {
    pub id: ItemId,
    pub user_id: UserId,
    pub project_id: ProjectId,
    pub content: Seq<char>,
    pub due: Option<DateView>,
    pub priority: Priority,
    pub parent_id: Option<ItemId>,
    pub child_order: Order,
    pub section_id: Option<SectionId>,
    pub day_order: Order,
    pub collapsed: Flag,
    pub labels: Seq<LabelId>,
    pub added_by_uid: Option<UserId>,
    pub assigned_by_uid: Option<UserId>,
    pub responsible_uid: Option<UserId>,
    pub checked: Flag,
    pub in_history: Flag,
    pub is_deleted: Flag,
    pub sync_id: Option<ItemSyncId>,
    pub date_completed: Option<Seq<char>>,
    pub date_added: Seq<char>,
}

impl DeepView for Item {
    type V = ItemView;

    open spec fn deep_view(&self) -> ItemView {
        ItemView {
            id: self.id.deep_view(),
            user_id: self.user_id.deep_view(),
            project_id: self.project_id.deep_view(),
            content: self.content.deep_view(),
            due: self.due.deep_view(),
            priority: self.priority.deep_view(),
            parent_id: self.parent_id.deep_view(),
            child_order: self.child_order.deep_view(),
            section_id: self.section_id.deep_view(),
            day_order: self.day_order.deep_view(),
            collapsed: self.collapsed.deep_view(),
            labels: self.labels.deep_view(),
            added_by_uid: self.added_by_uid.deep_view(),
            assigned_by_uid: self.assigned_by_uid.deep_view(),
            responsible_uid: self.responsible_uid.deep_view(),
            checked: self.checked.deep_view(),
            in_history: self.in_history.deep_view(),
            is_deleted: self.is_deleted.deep_view(),
            sync_id: self.sync_id.deep_view(),
            date_completed: self.date_completed.deep_view(),
            date_added: self.date_added.deep_view(),
        }
    }
}

impl Item {
    /// The failure of each field, in the order in which the fields are declared.
    pub open spec fn faults(fields: Fields) -> Seq<Option<DecodeErrorView>> {
        seq![
            failure(required_of::<ItemId>(fields, "id"@)),
            failure(required_of::<UserId>(fields, "user_id"@)),
            failure(required_of::<ProjectId>(fields, "project_id"@)),
            failure(required_of::<String>(fields, "content"@)),
            failure(optional_of::<Date>(fields, "due"@)),
            failure(required_of::<Priority>(fields, "priority"@)),
            failure(optional_of::<ItemId>(fields, "parent_id"@)),
            failure(required_of::<Order>(fields, "child_order"@)),
            failure(optional_of::<SectionId>(fields, "section_id"@)),
            failure(required_of::<Order>(fields, "day_order"@)),
            failure(required_of::<Flag>(fields, "collapsed"@)),
            failure(required_of::<Vec<LabelId>>(fields, "labels"@)),
            failure(optional_of::<UserId>(fields, "added_by_uid"@)),
            failure(optional_of::<UserId>(fields, "assigned_by_uid"@)),
            failure(optional_of::<UserId>(fields, "responsible_uid"@)),
            failure(required_of::<Flag>(fields, "checked"@)),
            failure(required_of::<Flag>(fields, "in_history"@)),
            failure(required_of::<Flag>(fields, "is_deleted"@)),
            failure(optional_of::<ItemSyncId>(fields, "sync_id"@)),
            failure(optional_of::<String>(fields, "date_completed"@)),
            failure(required_of::<String>(fields, "date_added"@)),
        ]
    }

    /// The record that the fields make where none of them fails.
    pub open spec fn assembled(fields: Fields) -> ItemView {
        ItemView {
            id: required_of::<ItemId>(fields, "id"@)->Ok_0,
            user_id: required_of::<UserId>(fields, "user_id"@)->Ok_0,
            project_id: required_of::<ProjectId>(fields, "project_id"@)->Ok_0,
            content: required_of::<String>(fields, "content"@)->Ok_0,
            due: optional_of::<Date>(fields, "due"@)->Ok_0,
            priority: required_of::<Priority>(fields, "priority"@)->Ok_0,
            parent_id: optional_of::<ItemId>(fields, "parent_id"@)->Ok_0,
            child_order: required_of::<Order>(fields, "child_order"@)->Ok_0,
            section_id: optional_of::<SectionId>(fields, "section_id"@)->Ok_0,
            day_order: required_of::<Order>(fields, "day_order"@)->Ok_0,
            collapsed: required_of::<Flag>(fields, "collapsed"@)->Ok_0,
            labels: required_of::<Vec<LabelId>>(fields, "labels"@)->Ok_0,
            added_by_uid: optional_of::<UserId>(fields, "added_by_uid"@)->Ok_0,
            assigned_by_uid: optional_of::<UserId>(fields, "assigned_by_uid"@)->Ok_0,
            responsible_uid: optional_of::<UserId>(fields, "responsible_uid"@)->Ok_0,
            checked: required_of::<Flag>(fields, "checked"@)->Ok_0,
            in_history: required_of::<Flag>(fields, "in_history"@)->Ok_0,
            is_deleted: required_of::<Flag>(fields, "is_deleted"@)->Ok_0,
            sync_id: optional_of::<ItemSyncId>(fields, "sync_id"@)->Ok_0,
            date_completed: optional_of::<String>(fields, "date_completed"@)->Ok_0,
            date_added: required_of::<String>(fields, "date_added"@)->Ok_0,
        }
    }

    /// The key of the field at a place, the fields counted from zero as they
    /// are declared.
    pub open spec fn key_at(place: int) -> Seq<char> {
        if place == 0 {
            "id"@
        } else if place == 1 {
            "user_id"@
        } else if place == 2 {
            "project_id"@
        } else if place == 3 {
            "content"@
        } else if place == 4 {
            "due"@
        } else if place == 5 {
            "priority"@
        } else if place == 6 {
            "parent_id"@
        } else if place == 7 {
            "child_order"@
        } else if place == 8 {
            "section_id"@
        } else if place == 9 {
            "day_order"@
        } else if place == 10 {
            "collapsed"@
        } else if place == 11 {
            "labels"@
        } else if place == 12 {
            "added_by_uid"@
        } else if place == 13 {
            "assigned_by_uid"@
        } else if place == 14 {
            "responsible_uid"@
        } else if place == 15 {
            "checked"@
        } else if place == 16 {
            "in_history"@
        } else if place == 17 {
            "is_deleted"@
        } else if place == 18 {
            "sync_id"@
        } else if place == 19 {
            "date_completed"@
        } else {
            "date_added"@
        }
    }

    /// Whether the field at a place is required.
    pub open spec fn required_at(place: int) -> bool {
        place == 0 || place == 1 || place == 2 || place == 3 || place == 5 || place == 7
            || place == 9 || place == 10 || place == 11 || place == 15 || place == 16 || place == 17
            || place == 20
    }

    /// A record that lacks a required field does not decode. Since a record
    /// fails as the first of its fields that fails, the failure names the
    /// lacking field unless a field declared before it fails.
    pub proof fn lemma_missing_field(fields: Fields, place: int)
        requires
            Item::required_at(place),
            member(fields, Item::key_at(place)) is None,
        ensures
            Item::decoded(JsonValue::Object(fields)) is Err,
            none_before(Item::faults(fields), place) ==> Item::decoded(JsonValue::Object(fields))
                == Err::<ItemView, DecodeErrorView>(missing(Item::key_at(place))),
    {
        let key = Item::key_at(place);
        lemma_first_failure(Item::faults(fields));
        if place == 0 {
            lemma_absent_required::<ItemId>(fields, key);
            assert(Item::faults(fields)[0] == Some(missing(key)));
        } else if place == 1 {
            lemma_absent_required::<UserId>(fields, key);
            assert(Item::faults(fields)[1] == Some(missing(key)));
        } else if place == 2 {
            lemma_absent_required::<ProjectId>(fields, key);
            assert(Item::faults(fields)[2] == Some(missing(key)));
        } else if place == 3 {
            lemma_absent_required::<String>(fields, key);
            assert(Item::faults(fields)[3] == Some(missing(key)));
        } else if place == 5 {
            lemma_absent_required::<Priority>(fields, key);
            assert(Item::faults(fields)[5] == Some(missing(key)));
        } else if place == 7 {
            lemma_absent_required::<Order>(fields, key);
            assert(Item::faults(fields)[7] == Some(missing(key)));
        } else if place == 9 {
            lemma_absent_required::<Order>(fields, key);
            assert(Item::faults(fields)[9] == Some(missing(key)));
        } else if place == 10 {
            lemma_absent_required::<Flag>(fields, key);
            assert(Item::faults(fields)[10] == Some(missing(key)));
        } else if place == 11 {
            lemma_absent_required::<Vec<LabelId>>(fields, key);
            assert(Item::faults(fields)[11] == Some(missing(key)));
        } else if place == 15 {
            lemma_absent_required::<Flag>(fields, key);
            assert(Item::faults(fields)[15] == Some(missing(key)));
        } else if place == 16 {
            lemma_absent_required::<Flag>(fields, key);
            assert(Item::faults(fields)[16] == Some(missing(key)));
        } else if place == 17 {
            lemma_absent_required::<Flag>(fields, key);
            assert(Item::faults(fields)[17] == Some(missing(key)));
        } else if place == 20 {
            lemma_absent_required::<String>(fields, key);
            assert(Item::faults(fields)[20] == Some(missing(key)));
        }
    }

    /// A record with none of its optional members decodes whenever its required
    /// fields do, and then every optional field has no value and every field
    /// with a default has its default.
    pub proof fn lemma_minimal(fields: Fields)
        requires
            member(fields, "due"@) is None,
            member(fields, "parent_id"@) is None,
            member(fields, "section_id"@) is None,
            member(fields, "added_by_uid"@) is None,
            member(fields, "assigned_by_uid"@) is None,
            member(fields, "responsible_uid"@) is None,
            member(fields, "sync_id"@) is None,
            member(fields, "date_completed"@) is None,
            required_of::<ItemId>(fields, "id"@) is Ok,
            required_of::<UserId>(fields, "user_id"@) is Ok,
            required_of::<ProjectId>(fields, "project_id"@) is Ok,
            required_of::<String>(fields, "content"@) is Ok,
            required_of::<Priority>(fields, "priority"@) is Ok,
            required_of::<Order>(fields, "child_order"@) is Ok,
            required_of::<Order>(fields, "day_order"@) is Ok,
            required_of::<Flag>(fields, "collapsed"@) is Ok,
            required_of::<Vec<LabelId>>(fields, "labels"@) is Ok,
            required_of::<Flag>(fields, "checked"@) is Ok,
            required_of::<Flag>(fields, "in_history"@) is Ok,
            required_of::<Flag>(fields, "is_deleted"@) is Ok,
            required_of::<String>(fields, "date_added"@) is Ok,
        ensures
            Item::decoded(JsonValue::Object(fields)) is Ok,
            Item::decoded(JsonValue::Object(fields))->Ok_0.due is None,
            Item::decoded(JsonValue::Object(fields))->Ok_0.parent_id is None,
            Item::decoded(JsonValue::Object(fields))->Ok_0.section_id is None,
            Item::decoded(JsonValue::Object(fields))->Ok_0.added_by_uid is None,
            Item::decoded(JsonValue::Object(fields))->Ok_0.assigned_by_uid is None,
            Item::decoded(JsonValue::Object(fields))->Ok_0.responsible_uid is None,
            Item::decoded(JsonValue::Object(fields))->Ok_0.sync_id is None,
            Item::decoded(JsonValue::Object(fields))->Ok_0.date_completed is None,
    {
        lemma_first_failure(Item::faults(fields));
    }
}

impl Decode for Item {
    open spec fn decoded(v: JsonValue) -> Result<ItemView, DecodeErrorView> {
        match record_of(v) {
            Ok(fields) => match first_failure(Item::faults(fields)) {
                Some(e) => Err(e),
                None => Ok(Item::assembled(fields)),
            },
            Err(e) => Err(e),
        }
    }

    fn decode(j: &Json) -> (r: Result<Item, DecodeError>) {
        let fields = record(j)?;
        let ghost faults = Item::faults(members_model(fields@));
        let id = required::<ItemId>(fields, "id")?;
        assert(first_failure(faults) == first_failure_from(faults, 1));
        let user_id = required::<UserId>(fields, "user_id")?;
        assert(first_failure(faults) == first_failure_from(faults, 2));
        let project_id = required::<ProjectId>(fields, "project_id")?;
        assert(first_failure(faults) == first_failure_from(faults, 3));
        let content = required::<String>(fields, "content")?;
        assert(first_failure(faults) == first_failure_from(faults, 4));
        let due = optional::<Date>(fields, "due")?;
        assert(first_failure(faults) == first_failure_from(faults, 5));
        let priority = required::<Priority>(fields, "priority")?;
        assert(first_failure(faults) == first_failure_from(faults, 6));
        let parent_id = optional::<ItemId>(fields, "parent_id")?;
        assert(first_failure(faults) == first_failure_from(faults, 7));
        let child_order = required::<Order>(fields, "child_order")?;
        assert(first_failure(faults) == first_failure_from(faults, 8));
        let section_id = optional::<SectionId>(fields, "section_id")?;
        assert(first_failure(faults) == first_failure_from(faults, 9));
        let day_order = required::<Order>(fields, "day_order")?;
        assert(first_failure(faults) == first_failure_from(faults, 10));
        let collapsed = required::<Flag>(fields, "collapsed")?;
        assert(first_failure(faults) == first_failure_from(faults, 11));
        let labels = required::<Vec<LabelId>>(fields, "labels")?;
        assert(first_failure(faults) == first_failure_from(faults, 12));
        let added_by_uid = optional::<UserId>(fields, "added_by_uid")?;
        assert(first_failure(faults) == first_failure_from(faults, 13));
        let assigned_by_uid = optional::<UserId>(fields, "assigned_by_uid")?;
        assert(first_failure(faults) == first_failure_from(faults, 14));
        let responsible_uid = optional::<UserId>(fields, "responsible_uid")?;
        assert(first_failure(faults) == first_failure_from(faults, 15));
        let checked = required::<Flag>(fields, "checked")?;
        assert(first_failure(faults) == first_failure_from(faults, 16));
        let in_history = required::<Flag>(fields, "in_history")?;
        assert(first_failure(faults) == first_failure_from(faults, 17));
        let is_deleted = required::<Flag>(fields, "is_deleted")?;
        assert(first_failure(faults) == first_failure_from(faults, 18));
        let sync_id = optional::<ItemSyncId>(fields, "sync_id")?;
        assert(first_failure(faults) == first_failure_from(faults, 19));
        let date_completed = optional::<String>(fields, "date_completed")?;
        assert(first_failure(faults) == first_failure_from(faults, 20));
        let date_added = required::<String>(fields, "date_added")?;
        assert(first_failure(faults) == first_failure_from(faults, 21));
        Ok(Item {
            id,
            user_id,
            project_id,
            content,
            due,
            priority,
            parent_id,
            child_order,
            section_id,
            day_order,
            collapsed,
            labels,
            added_by_uid,
            assigned_by_uid,
            responsible_uid,
            checked,
            in_history,
            is_deleted,
            sync_id,
            date_completed,
            date_added,
        })
    }
}

} // verus!
