//! Live notifications.

use vstd::prelude::*;

use crate::codes::Flag;
use crate::decode::{
    Decode, failure, Fields, first_failure, first_failure_from, lemma_absent_required,
    lemma_first_failure, missing, none_before, optional, optional_of, record, record_of, required,
    required_of,
};
use crate::error::{DecodeError, DecodeErrorView};
use crate::ids::{LiveNotificationId, UserId};
use crate::json::{Json, JsonValue, member, members_model};

verus! {

/// A notification of something that happened in a shared project.
#[derive(Debug, PartialEq, Eq)]
pub struct LiveNotification {
    /// The identifier of the notification.
    pub id: LiveNotificationId,
    /// When the notification was made.
    pub created: String,
    /// The user who caused it.
    pub from_uid: Option<UserId>,
    /// The key of the notification.
    pub notification_key: String,
    /// The kind of event.
    pub notification_type: String,
    /// Whether the user has yet to read it.
    pub is_unread: Flag,
}

/// The model of [`LiveNotification`].
pub struct LiveNotificationView {
    pub id: LiveNotificationId,
    pub created: Seq<char>,
    pub from_uid: Option<UserId>,
    pub notification_key: Seq<char>,
    pub notification_type: Seq<char>,
    pub is_unread: Flag,
}

impl DeepView for LiveNotification {
    type V = LiveNotificationView;

    open spec fn deep_view(&self) -> LiveNotificationView {
        LiveNotificationView {
            id: self.id.deep_view(),
            created: self.created.deep_view(),
            from_uid: self.from_uid.deep_view(),
            notification_key: self.notification_key.deep_view(),
            notification_type: self.notification_type.deep_view(),
            is_unread: self.is_unread.deep_view(),
        }
    }
}

impl LiveNotification {
    /// The failure of each field, in the order in which the fields are declared.
    pub open spec fn faults(fields: Fields) -> Seq<Option<DecodeErrorView>> {
        seq![
            failure(required_of::<LiveNotificationId>(fields, "id"@)),
            failure(required_of::<String>(fields, "created"@)),
            failure(optional_of::<UserId>(fields, "from_uid"@)),
            failure(required_of::<String>(fields, "notification_key"@)),
            failure(required_of::<String>(fields, "notification_type"@)),
            failure(required_of::<Flag>(fields, "is_unread"@)),
        ]
    }

    /// The record that the fields make where none of them fails.
    pub open spec fn assembled(fields: Fields) -> LiveNotificationView {
        LiveNotificationView {
            id: required_of::<LiveNotificationId>(fields, "id"@)->Ok_0,
            created: required_of::<String>(fields, "created"@)->Ok_0,
            from_uid: optional_of::<UserId>(fields, "from_uid"@)->Ok_0,
            notification_key: required_of::<String>(fields, "notification_key"@)->Ok_0,
            notification_type: required_of::<String>(fields, "notification_type"@)->Ok_0,
            is_unread: required_of::<Flag>(fields, "is_unread"@)->Ok_0,
        }
    }

    /// The key of the field at a place, the fields counted from zero as they
    /// are declared.
    pub open spec fn key_at(place: int) -> Seq<char> {
        if place == 0 {
            "id"@
        } else if place == 1 {
            "created"@
        } else if place == 2 {
            "from_uid"@
        } else if place == 3 {
            "notification_key"@
        } else if place == 4 {
            "notification_type"@
        } else {
            "is_unread"@
        }
    }

    /// Whether the field at a place is required.
    pub open spec fn required_at(place: int) -> bool {
        place == 0 || place == 1 || place == 3 || place == 4 || place == 5
    }

    /// A record that lacks a required field does not decode. Since a record
    /// fails as the first of its fields that fails, the failure names the
    /// lacking field unless a field declared before it fails.
    pub proof fn lemma_missing_field(fields: Fields, place: int)
        requires
            LiveNotification::required_at(place),
            member(fields, LiveNotification::key_at(place)) is None,
        ensures
            LiveNotification::decoded(JsonValue::Object(fields)) is Err,
            none_before(LiveNotification::faults(fields), place) ==> LiveNotification::decoded(JsonValue::Object(fields))
                == Err::<LiveNotificationView, DecodeErrorView>(missing(LiveNotification::key_at(place))),
    {
        let key = LiveNotification::key_at(place);
        lemma_first_failure(LiveNotification::faults(fields));
        if place == 0 {
            lemma_absent_required::<LiveNotificationId>(fields, key);
            assert(LiveNotification::faults(fields)[0] == Some(missing(key)));
        } else if place == 1 {
            lemma_absent_required::<String>(fields, key);
            assert(LiveNotification::faults(fields)[1] == Some(missing(key)));
        } else if place == 3 {
            lemma_absent_required::<String>(fields, key);
            assert(LiveNotification::faults(fields)[3] == Some(missing(key)));
        } else if place == 4 {
            lemma_absent_required::<String>(fields, key);
            assert(LiveNotification::faults(fields)[4] == Some(missing(key)));
        } else if place == 5 {
            lemma_absent_required::<Flag>(fields, key);
            assert(LiveNotification::faults(fields)[5] == Some(missing(key)));
        }
    }

    /// A record with none of its optional members decodes whenever its required
    /// fields do, and then every optional field has no value and every field
    /// with a default has its default.
    pub proof fn lemma_minimal(fields: Fields)
        requires
            member(fields, "from_uid"@) is None,
            required_of::<LiveNotificationId>(fields, "id"@) is Ok,
            required_of::<String>(fields, "created"@) is Ok,
            required_of::<String>(fields, "notification_key"@) is Ok,
            required_of::<String>(fields, "notification_type"@) is Ok,
            required_of::<Flag>(fields, "is_unread"@) is Ok,
        ensures
            LiveNotification::decoded(JsonValue::Object(fields)) is Ok,
            LiveNotification::decoded(JsonValue::Object(fields))->Ok_0.from_uid is None,
    {
        lemma_first_failure(LiveNotification::faults(fields));
    }
}

impl Decode for LiveNotification {
    open spec fn decoded(v: JsonValue) -> Result<LiveNotificationView, DecodeErrorView> {
        match record_of(v) {
            Ok(fields) => match first_failure(LiveNotification::faults(fields)) {
                Some(e) => Err(e),
                None => Ok(LiveNotification::assembled(fields)),
            },
            Err(e) => Err(e),
        }
    }

    fn decode(j: &Json) -> (r: Result<LiveNotification, DecodeError>) {
        let fields = record(j)?;
        let ghost faults = LiveNotification::faults(members_model(fields@));
        let id = required::<LiveNotificationId>(fields, "id")?;
        assert(first_failure(faults) == first_failure_from(faults, 1));
        let created = required::<String>(fields, "created")?;
        assert(first_failure(faults) == first_failure_from(faults, 2));
        let from_uid = optional::<UserId>(fields, "from_uid")?;
        assert(first_failure(faults) == first_failure_from(faults, 3));
        let notification_key = required::<String>(fields, "notification_key")?;
        assert(first_failure(faults) == first_failure_from(faults, 4));
        let notification_type = required::<String>(fields, "notification_type")?;
        assert(first_failure(faults) == first_failure_from(faults, 5));
        let is_unread = required::<Flag>(fields, "is_unread")?;
        assert(first_failure(faults) == first_failure_from(faults, 6));
        Ok(LiveNotification {
            id,
            created,
            from_uid,
            notification_key,
            notification_type,
            is_unread,
        })
    }
}

} // verus!
