//! The snapshot: every entity of an account, decoded from one payload.

use vstd::prelude::*;

use crate::collaborator::{Collaborator, CollaboratorState, CollaboratorStateView, CollaboratorView};
use crate::decode::{
    Decode, defaulted_of, failure, Fields, first_failure, first_failure_from,
    lemma_absent_required, lemma_first_failure, listed_or_empty, missing, none_before, record,
    record_of, required, required_of,
};
use crate::error::{DecodeError, DecodeErrorView};
use crate::ids::{ItemId, LiveNotificationId};
use crate::item::{Item, ItemView};
use crate::json::{Json, JsonValue, member, members_model};
use crate::label::{Filter, FilterView, Label, LabelView};
use crate::names::Reminder;
use crate::note::{Note, NoteView, ProjectNote, ProjectNoteView};
use crate::notification::{LiveNotification, LiveNotificationView};
use crate::orders::{DayOrders, Order};
use crate::project::{Project, ProjectView, Section, SectionView};
use crate::user::{UserProfile, UserProfileView, UserSettings, UserSettingsView};

verus! {

/// The whole state of an account at one point in time.
#[derive(Debug, PartialEq, Eq)]
pub struct SyncSnapshot {
    /// The token to continue from in a later fetch.
    pub sync_token: String,
    /// Whether the payload holds the whole state.
    pub full_sync: bool,
    /// The profile of the user.
    pub user: UserProfile,
    /// The projects.
    pub projects: Vec<Project>,
    /// The items.
    pub items: Vec<Item>,
    /// The notes on items.
    pub notes: Vec<Note>,
    /// The notes on projects.
    pub project_notes: Vec<ProjectNote>,
    /// The sections.
    pub sections: Vec<Section>,
    /// The labels.
    pub labels: Vec<Label>,
    /// The filters.
    pub filters: Vec<Filter>,
    /// The rank of items in the daily agenda.
    pub day_orders: DayOrders,
    /// The reminders.
    pub reminders: Vec<Reminder>,
    /// The collaborators of the shared projects.
    pub collaborators: Vec<Collaborator>,
    /// The standing of the collaborators.
    pub collaborator_states: Vec<CollaboratorState>,
    /// The notifications.
    pub live_notifications: Vec<LiveNotification>,
    /// The last notification that the user has read.
    pub live_notifications_last_read_id: LiveNotificationId,
    /// The settings of the user.
    pub user_settings: UserSettings,
}

/// The model of [`SyncSnapshot`].
pub struct SyncSnapshotView {
    pub sync_token: Seq<char>,
    pub full_sync: bool,
    pub user: UserProfileView,
    pub projects: Seq<ProjectView>,
    pub items: Seq<ItemView>,
    pub notes: Seq<NoteView>,
    pub project_notes: Seq<ProjectNoteView>,
    pub sections: Seq<SectionView>,
    pub labels: Seq<LabelView>,
    pub filters: Seq<FilterView>,
    pub day_orders: Map<ItemId, Order>,
    pub reminders: Seq<Reminder>,
    pub collaborators: Seq<CollaboratorView>,
    pub collaborator_states: Seq<CollaboratorStateView>,
    pub live_notifications: Seq<LiveNotificationView>,
    pub live_notifications_last_read_id: LiveNotificationId,
    pub user_settings: UserSettingsView,
}

impl DeepView for SyncSnapshot {
    type V = SyncSnapshotView;

    open spec fn deep_view(&self) -> SyncSnapshotView {
        SyncSnapshotView {
            sync_token: self.sync_token.deep_view(),
            full_sync: self.full_sync.deep_view(),
            user: self.user.deep_view(),
            projects: self.projects.deep_view(),
            items: self.items.deep_view(),
            notes: self.notes.deep_view(),
            project_notes: self.project_notes.deep_view(),
            sections: self.sections.deep_view(),
            labels: self.labels.deep_view(),
            filters: self.filters.deep_view(),
            day_orders: self.day_orders.deep_view(),
            reminders: self.reminders.deep_view(),
            collaborators: self.collaborators.deep_view(),
            collaborator_states: self.collaborator_states.deep_view(),
            live_notifications: self.live_notifications.deep_view(),
            live_notifications_last_read_id: self.live_notifications_last_read_id.deep_view(),
            user_settings: self.user_settings.deep_view(),
        }
    }
}

impl SyncSnapshot {
    /// The failure of each field, in the order in which the fields are declared.
    pub open spec fn faults(fields: Fields) -> Seq<Option<DecodeErrorView>> {
        seq![
            failure(required_of::<String>(fields, "sync_token"@)),
            failure(required_of::<bool>(fields, "full_sync"@)),
            failure(required_of::<UserProfile>(fields, "user"@)),
            failure(required_of::<Vec<Project>>(fields, "projects"@)),
            failure(required_of::<Vec<Item>>(fields, "items"@)),
            failure(required_of::<Vec<Note>>(fields, "notes"@)),
            failure(required_of::<Vec<ProjectNote>>(fields, "project_notes"@)),
            failure(required_of::<Vec<Section>>(fields, "sections"@)),
            failure(required_of::<Vec<Label>>(fields, "labels"@)),
            failure(required_of::<Vec<Filter>>(fields, "filters"@)),
            failure(required_of::<DayOrders>(fields, "day_orders"@)),
            failure(required_of::<Vec<Reminder>>(fields, "reminders"@)),
            failure(required_of::<Vec<Collaborator>>(fields, "collaborators"@)),
            failure(defaulted_of::<Vec<CollaboratorState>>(fields, "collaborator_states"@, Seq::empty())),
            failure(required_of::<Vec<LiveNotification>>(fields, "live_notifications"@)),
            failure(required_of::<LiveNotificationId>(fields, "live_notifications_last_read_id"@)),
            failure(required_of::<UserSettings>(fields, "user_settings"@)),
        ]
    }

    /// The record that the fields make where none of them fails.
    pub open spec fn assembled(fields: Fields) -> SyncSnapshotView {
        SyncSnapshotView {
            sync_token: required_of::<String>(fields, "sync_token"@)->Ok_0,
            full_sync: required_of::<bool>(fields, "full_sync"@)->Ok_0,
            user: required_of::<UserProfile>(fields, "user"@)->Ok_0,
            projects: required_of::<Vec<Project>>(fields, "projects"@)->Ok_0,
            items: required_of::<Vec<Item>>(fields, "items"@)->Ok_0,
            notes: required_of::<Vec<Note>>(fields, "notes"@)->Ok_0,
            project_notes: required_of::<Vec<ProjectNote>>(fields, "project_notes"@)->Ok_0,
            sections: required_of::<Vec<Section>>(fields, "sections"@)->Ok_0,
            labels: required_of::<Vec<Label>>(fields, "labels"@)->Ok_0,
            filters: required_of::<Vec<Filter>>(fields, "filters"@)->Ok_0,
            day_orders: required_of::<DayOrders>(fields, "day_orders"@)->Ok_0,
            reminders: required_of::<Vec<Reminder>>(fields, "reminders"@)->Ok_0,
            collaborators: required_of::<Vec<Collaborator>>(fields, "collaborators"@)->Ok_0,
            collaborator_states: defaulted_of::<Vec<CollaboratorState>>(fields, "collaborator_states"@, Seq::empty())->Ok_0,
            live_notifications: required_of::<Vec<LiveNotification>>(fields, "live_notifications"@)->Ok_0,
            live_notifications_last_read_id: required_of::<LiveNotificationId>(fields, "live_notifications_last_read_id"@)->Ok_0,
            user_settings: required_of::<UserSettings>(fields, "user_settings"@)->Ok_0,
        }
    }

    /// The key of the field at a place, the fields counted from zero as they
    /// are declared.
    pub open spec fn key_at(place: int) -> Seq<char> {
        if place == 0 {
            "sync_token"@
        } else if place == 1 {
            "full_sync"@
        } else if place == 2 {
            "user"@
        } else if place == 3 {
            "projects"@
        } else if place == 4 {
            "items"@
        } else if place == 5 {
            "notes"@
        } else if place == 6 {
            "project_notes"@
        } else if place == 7 {
            "sections"@
        } else if place == 8 {
            "labels"@
        } else if place == 9 {
            "filters"@
        } else if place == 10 {
            "day_orders"@
        } else if place == 11 {
            "reminders"@
        } else if place == 12 {
            "collaborators"@
        } else if place == 13 {
            "collaborator_states"@
        } else if place == 14 {
            "live_notifications"@
        } else if place == 15 {
            "live_notifications_last_read_id"@
        } else {
            "user_settings"@
        }
    }

    /// Whether the field at a place is required.
    pub open spec fn required_at(place: int) -> bool {
        place == 0 || place == 1 || place == 2 || place == 3 || place == 4 || place == 5
            || place == 6 || place == 7 || place == 8 || place == 9 || place == 10 || place == 11
            || place == 12 || place == 14 || place == 15 || place == 16
    }

    /// A record that lacks a required field does not decode. Since a record
    /// fails as the first of its fields that fails, the failure names the
    /// lacking field unless a field declared before it fails.
    pub proof fn lemma_missing_field(fields: Fields, place: int)
        requires
            SyncSnapshot::required_at(place),
            member(fields, SyncSnapshot::key_at(place)) is None,
        ensures
            SyncSnapshot::decoded(JsonValue::Object(fields)) is Err,
            none_before(SyncSnapshot::faults(fields), place) ==> SyncSnapshot::decoded(JsonValue::Object(fields))
                == Err::<SyncSnapshotView, DecodeErrorView>(missing(SyncSnapshot::key_at(place))),
    {
        let key = SyncSnapshot::key_at(place);
        lemma_first_failure(SyncSnapshot::faults(fields));
        if place == 0 {
            lemma_absent_required::<String>(fields, key);
            assert(SyncSnapshot::faults(fields)[0] == Some(missing(key)));
        } else if place == 1 {
            lemma_absent_required::<bool>(fields, key);
            assert(SyncSnapshot::faults(fields)[1] == Some(missing(key)));
        } else if place == 2 {
            lemma_absent_required::<UserProfile>(fields, key);
            assert(SyncSnapshot::faults(fields)[2] == Some(missing(key)));
        } else if place == 3 {
            lemma_absent_required::<Vec<Project>>(fields, key);
            assert(SyncSnapshot::faults(fields)[3] == Some(missing(key)));
        } else if place == 4 {
            lemma_absent_required::<Vec<Item>>(fields, key);
            assert(SyncSnapshot::faults(fields)[4] == Some(missing(key)));
        } else if place == 5 {
            lemma_absent_required::<Vec<Note>>(fields, key);
            assert(SyncSnapshot::faults(fields)[5] == Some(missing(key)));
        } else if place == 6 {
            lemma_absent_required::<Vec<ProjectNote>>(fields, key);
            assert(SyncSnapshot::faults(fields)[6] == Some(missing(key)));
        } else if place == 7 {
            lemma_absent_required::<Vec<Section>>(fields, key);
            assert(SyncSnapshot::faults(fields)[7] == Some(missing(key)));
        } else if place == 8 {
            lemma_absent_required::<Vec<Label>>(fields, key);
            assert(SyncSnapshot::faults(fields)[8] == Some(missing(key)));
        } else if place == 9 {
            lemma_absent_required::<Vec<Filter>>(fields, key);
            assert(SyncSnapshot::faults(fields)[9] == Some(missing(key)));
        } else if place == 10 {
            lemma_absent_required::<DayOrders>(fields, key);
            assert(SyncSnapshot::faults(fields)[10] == Some(missing(key)));
        } else if place == 11 {
            lemma_absent_required::<Vec<Reminder>>(fields, key);
            assert(SyncSnapshot::faults(fields)[11] == Some(missing(key)));
        } else if place == 12 {
            lemma_absent_required::<Vec<Collaborator>>(fields, key);
            assert(SyncSnapshot::faults(fields)[12] == Some(missing(key)));
        } else if place == 14 {
            lemma_absent_required::<Vec<LiveNotification>>(fields, key);
            assert(SyncSnapshot::faults(fields)[14] == Some(missing(key)));
        } else if place == 15 {
            lemma_absent_required::<LiveNotificationId>(fields, key);
            assert(SyncSnapshot::faults(fields)[15] == Some(missing(key)));
        } else if place == 16 {
            lemma_absent_required::<UserSettings>(fields, key);
            assert(SyncSnapshot::faults(fields)[16] == Some(missing(key)));
        }
    }

    /// A record with none of its optional members decodes whenever its required
    /// fields do, and then every optional field has no value and every field
    /// with a default has its default.
    pub proof fn lemma_minimal(fields: Fields)
        requires
            member(fields, "collaborator_states"@) is None,
            required_of::<String>(fields, "sync_token"@) is Ok,
            required_of::<bool>(fields, "full_sync"@) is Ok,
            required_of::<UserProfile>(fields, "user"@) is Ok,
            required_of::<Vec<Project>>(fields, "projects"@) is Ok,
            required_of::<Vec<Item>>(fields, "items"@) is Ok,
            required_of::<Vec<Note>>(fields, "notes"@) is Ok,
            required_of::<Vec<ProjectNote>>(fields, "project_notes"@) is Ok,
            required_of::<Vec<Section>>(fields, "sections"@) is Ok,
            required_of::<Vec<Label>>(fields, "labels"@) is Ok,
            required_of::<Vec<Filter>>(fields, "filters"@) is Ok,
            required_of::<DayOrders>(fields, "day_orders"@) is Ok,
            required_of::<Vec<Reminder>>(fields, "reminders"@) is Ok,
            required_of::<Vec<Collaborator>>(fields, "collaborators"@) is Ok,
            required_of::<Vec<LiveNotification>>(fields, "live_notifications"@) is Ok,
            required_of::<LiveNotificationId>(fields, "live_notifications_last_read_id"@) is Ok,
            required_of::<UserSettings>(fields, "user_settings"@) is Ok,
        ensures
            SyncSnapshot::decoded(JsonValue::Object(fields)) is Ok,
            SyncSnapshot::decoded(JsonValue::Object(fields))->Ok_0.collaborator_states.len() == 0,
    {
        lemma_first_failure(SyncSnapshot::faults(fields));
    }
}

impl Decode for SyncSnapshot {
    open spec fn decoded(v: JsonValue) -> Result<SyncSnapshotView, DecodeErrorView> {
        match record_of(v) {
            Ok(fields) => match first_failure(SyncSnapshot::faults(fields)) {
                Some(e) => Err(e),
                None => Ok(SyncSnapshot::assembled(fields)),
            },
            Err(e) => Err(e),
        }
    }

    fn decode(j: &Json) -> (r: Result<SyncSnapshot, DecodeError>) {
        let fields = record(j)?;
        let ghost faults = SyncSnapshot::faults(members_model(fields@));
        let sync_token = required::<String>(fields, "sync_token")?;
        assert(first_failure(faults) == first_failure_from(faults, 1));
        let full_sync = required::<bool>(fields, "full_sync")?;
        assert(first_failure(faults) == first_failure_from(faults, 2));
        let user = required::<UserProfile>(fields, "user")?;
        assert(first_failure(faults) == first_failure_from(faults, 3));
        let projects = required::<Vec<Project>>(fields, "projects")?;
        assert(first_failure(faults) == first_failure_from(faults, 4));
        let items = required::<Vec<Item>>(fields, "items")?;
        assert(first_failure(faults) == first_failure_from(faults, 5));
        let notes = required::<Vec<Note>>(fields, "notes")?;
        assert(first_failure(faults) == first_failure_from(faults, 6));
        let project_notes = required::<Vec<ProjectNote>>(fields, "project_notes")?;
        assert(first_failure(faults) == first_failure_from(faults, 7));
        let sections = required::<Vec<Section>>(fields, "sections")?;
        assert(first_failure(faults) == first_failure_from(faults, 8));
        let labels = required::<Vec<Label>>(fields, "labels")?;
        assert(first_failure(faults) == first_failure_from(faults, 9));
        let filters = required::<Vec<Filter>>(fields, "filters")?;
        assert(first_failure(faults) == first_failure_from(faults, 10));
        let day_orders = required::<DayOrders>(fields, "day_orders")?;
        assert(first_failure(faults) == first_failure_from(faults, 11));
        let reminders = required::<Vec<Reminder>>(fields, "reminders")?;
        assert(first_failure(faults) == first_failure_from(faults, 12));
        let collaborators = required::<Vec<Collaborator>>(fields, "collaborators")?;
        assert(first_failure(faults) == first_failure_from(faults, 13));
        let collaborator_states = listed_or_empty::<CollaboratorState>(fields, "collaborator_states")?;
        assert(first_failure(faults) == first_failure_from(faults, 14));
        let live_notifications = required::<Vec<LiveNotification>>(fields, "live_notifications")?;
        assert(first_failure(faults) == first_failure_from(faults, 15));
        let live_notifications_last_read_id = required::<LiveNotificationId>(fields, "live_notifications_last_read_id")?;
        assert(first_failure(faults) == first_failure_from(faults, 16));
        let user_settings = required::<UserSettings>(fields, "user_settings")?;
        assert(first_failure(faults) == first_failure_from(faults, 17));
        Ok(SyncSnapshot {
            sync_token,
            full_sync,
            user,
            projects,
            items,
            notes,
            project_notes,
            sections,
            labels,
            filters,
            day_orders,
            reminders,
            collaborators,
            collaborator_states,
            live_notifications,
            live_notifications_last_read_id,
            user_settings,
        })
    }
}

} // verus!
