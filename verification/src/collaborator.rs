//! The collaborators of shared projects.

use vstd::prelude::*;

use crate::decode::{
    Decode, failure, Fields, first_failure, first_failure_from, lemma_absent_required,
    lemma_first_failure, missing, none_before, optional, optional_of, record, record_of, required,
    required_of,
};
use crate::error::{DecodeError, DecodeErrorView};
use crate::ids::{CollaboratorId, ProjectId, UserId};
use crate::json::{Json, JsonValue, member, members_model};
use crate::names::CollaboratorStatus;

verus! {

/// A user with whom a project is shared.
#[derive(Debug, PartialEq, Eq)]
pub struct Collaborator {
    /// The identifier of the collaborator.
    pub id: CollaboratorId,
    /// The e-mail address.
    pub email: String,
    /// The name.
    pub full_name: String,
    /// The time zone.
    pub timezone: String,
    /// The identifier of the avatar image.
    pub image_id: Option<String>,
}

/// The model of [`Collaborator`].
pub struct CollaboratorView {
    pub id: CollaboratorId,
    pub email: Seq<char>,
    pub full_name: Seq<char>,
    pub timezone: Seq<char>,
    pub image_id: Option<Seq<char>>,
}

impl DeepView for Collaborator {
    type V = CollaboratorView;

    open spec fn deep_view(&self) -> CollaboratorView {
        CollaboratorView {
            id: self.id.deep_view(),
            email: self.email.deep_view(),
            full_name: self.full_name.deep_view(),
            timezone: self.timezone.deep_view(),
            image_id: self.image_id.deep_view(),
        }
    }
}

impl Collaborator {
    /// The failure of each field, in the order in which the fields are declared.
    pub open spec fn faults(fields: Fields) -> Seq<Option<DecodeErrorView>> {
        seq![
            failure(required_of::<CollaboratorId>(fields, "id"@)),
            failure(required_of::<String>(fields, "email"@)),
            failure(required_of::<String>(fields, "full_name"@)),
            failure(required_of::<String>(fields, "timezone"@)),
            failure(optional_of::<String>(fields, "image_id"@)),
        ]
    }

    /// The record that the fields make where none of them fails.
    pub open spec fn assembled(fields: Fields) -> CollaboratorView {
        CollaboratorView {
            id: required_of::<CollaboratorId>(fields, "id"@)->Ok_0,
            email: required_of::<String>(fields, "email"@)->Ok_0,
            full_name: required_of::<String>(fields, "full_name"@)->Ok_0,
            timezone: required_of::<String>(fields, "timezone"@)->Ok_0,
            image_id: optional_of::<String>(fields, "image_id"@)->Ok_0,
        }
    }

    /// The key of the field at a place, the fields counted from zero as they
    /// are declared.
    pub open spec fn key_at(place: int) -> Seq<char> {
        if place == 0 {
            "id"@
        } else if place == 1 {
            "email"@
        } else if place == 2 {
            "full_name"@
        } else if place == 3 {
            "timezone"@
        } else {
            "image_id"@
        }
    }

    /// Whether the field at a place is required.
    pub open spec fn required_at(place: int) -> bool {
        place == 0 || place == 1 || place == 2 || place == 3
    }

    /// A record that lacks a required field does not decode. Since a record
    /// fails as the first of its fields that fails, the failure names the
    /// lacking field unless a field declared before it fails.
    pub proof fn lemma_missing_field(fields: Fields, place: int)
        requires
            Collaborator::required_at(place),
            member(fields, Collaborator::key_at(place)) is None,
        ensures
            Collaborator::decoded(JsonValue::Object(fields)) is Err,
            none_before(Collaborator::faults(fields), place) ==> Collaborator::decoded(JsonValue::Object(fields))
                == Err::<CollaboratorView, DecodeErrorView>(missing(Collaborator::key_at(place))),
    {
        let key = Collaborator::key_at(place);
        lemma_first_failure(Collaborator::faults(fields));
        if place == 0 {
            lemma_absent_required::<CollaboratorId>(fields, key);
            assert(Collaborator::faults(fields)[0] == Some(missing(key)));
        } else if place == 1 {
            lemma_absent_required::<String>(fields, key);
            assert(Collaborator::faults(fields)[1] == Some(missing(key)));
        } else if place == 2 {
            lemma_absent_required::<String>(fields, key);
            assert(Collaborator::faults(fields)[2] == Some(missing(key)));
        } else if place == 3 {
            lemma_absent_required::<String>(fields, key);
            assert(Collaborator::faults(fields)[3] == Some(missing(key)));
        }
    }

    /// A record with none of its optional members decodes whenever its required
    /// fields do, and then every optional field has no value and every field
    /// with a default has its default.
    pub proof fn lemma_minimal(fields: Fields)
        requires
            member(fields, "image_id"@) is None,
            required_of::<CollaboratorId>(fields, "id"@) is Ok,
            required_of::<String>(fields, "email"@) is Ok,
            required_of::<String>(fields, "full_name"@) is Ok,
            required_of::<String>(fields, "timezone"@) is Ok,
        ensures
            Collaborator::decoded(JsonValue::Object(fields)) is Ok,
            Collaborator::decoded(JsonValue::Object(fields))->Ok_0.image_id is None,
    {
        lemma_first_failure(Collaborator::faults(fields));
    }
}

impl Decode for Collaborator {
    open spec fn decoded(v: JsonValue) -> Result<CollaboratorView, DecodeErrorView> {
        match record_of(v) {
            Ok(fields) => match first_failure(Collaborator::faults(fields)) {
                Some(e) => Err(e),
                None => Ok(Collaborator::assembled(fields)),
            },
            Err(e) => Err(e),
        }
    }

    fn decode(j: &Json) -> (r: Result<Collaborator, DecodeError>) {
        let fields = record(j)?;
        let ghost faults = Collaborator::faults(members_model(fields@));
        let id = required::<CollaboratorId>(fields, "id")?;
        assert(first_failure(faults) == first_failure_from(faults, 1));
        let email = required::<String>(fields, "email")?;
        assert(first_failure(faults) == first_failure_from(faults, 2));
        let full_name = required::<String>(fields, "full_name")?;
        assert(first_failure(faults) == first_failure_from(faults, 3));
        let timezone = required::<String>(fields, "timezone")?;
        assert(first_failure(faults) == first_failure_from(faults, 4));
        let image_id = optional::<String>(fields, "image_id")?;
        assert(first_failure(faults) == first_failure_from(faults, 5));
        Ok(Collaborator {
            id,
            email,
            full_name,
            timezone,
            image_id,
        })
    }
}

/// The standing of a collaborator in one shared project.
#[derive(Debug, PartialEq, Eq)]
pub struct CollaboratorState {
    /// The shared project.
    pub project_id: ProjectId,
    /// The collaborator.
    pub user_id: UserId,
    /// The standing.
    pub state: CollaboratorStatus,
    /// Whether the collaborator has left the project.
    pub is_deleted: bool,
}

/// The model of [`CollaboratorState`].
pub struct CollaboratorStateView {
    pub project_id: ProjectId,
    pub user_id: UserId,
    pub state: CollaboratorStatus,
    pub is_deleted: bool,
}

impl DeepView for CollaboratorState {
    type V = CollaboratorStateView;

    open spec fn deep_view(&self) -> CollaboratorStateView {
        CollaboratorStateView {
            project_id: self.project_id.deep_view(),
            user_id: self.user_id.deep_view(),
            state: self.state.deep_view(),
            is_deleted: self.is_deleted.deep_view(),
        }
    }
}

impl CollaboratorState {
    /// The failure of each field, in the order in which the fields are declared.
    pub open spec fn faults(fields: Fields) -> Seq<Option<DecodeErrorView>> {
        seq![
            failure(required_of::<ProjectId>(fields, "project_id"@)),
            failure(required_of::<UserId>(fields, "user_id"@)),
            failure(required_of::<CollaboratorStatus>(fields, "state"@)),
            failure(required_of::<bool>(fields, "is_deleted"@)),
        ]
    }

    /// The record that the fields make where none of them fails.
    pub open spec fn assembled(fields: Fields) -> CollaboratorStateView {
        CollaboratorStateView {
            project_id: required_of::<ProjectId>(fields, "project_id"@)->Ok_0,
            user_id: required_of::<UserId>(fields, "user_id"@)->Ok_0,
            state: required_of::<CollaboratorStatus>(fields, "state"@)->Ok_0,
            is_deleted: required_of::<bool>(fields, "is_deleted"@)->Ok_0,
        }
    }

    /// The key of the field at a place, the fields counted from zero as they
    /// are declared.
    pub open spec fn key_at(place: int) -> Seq<char> {
        if place == 0 {
            "project_id"@
        } else if place == 1 {
            "user_id"@
        } else if place == 2 {
            "state"@
        } else {
            "is_deleted"@
        }
    }

    /// Whether the field at a place is required.
    pub open spec fn required_at(place: int) -> bool {
        place == 0 || place == 1 || place == 2 || place == 3
    }

    /// A record that lacks a required field does not decode. Since a record
    /// fails as the first of its fields that fails, the failure names the
    /// lacking field unless a field declared before it fails.
    pub proof fn lemma_missing_field(fields: Fields, place: int)
        requires
            CollaboratorState::required_at(place),
            member(fields, CollaboratorState::key_at(place)) is None,
        ensures
            CollaboratorState::decoded(JsonValue::Object(fields)) is Err,
            none_before(CollaboratorState::faults(fields), place) ==> CollaboratorState::decoded(JsonValue::Object(fields))
                == Err::<CollaboratorStateView, DecodeErrorView>(missing(CollaboratorState::key_at(place))),
    {
        let key = CollaboratorState::key_at(place);
        lemma_first_failure(CollaboratorState::faults(fields));
        if place == 0 {
            lemma_absent_required::<ProjectId>(fields, key);
            assert(CollaboratorState::faults(fields)[0] == Some(missing(key)));
        } else if place == 1 {
            lemma_absent_required::<UserId>(fields, key);
            assert(CollaboratorState::faults(fields)[1] == Some(missing(key)));
        } else if place == 2 {
            lemma_absent_required::<CollaboratorStatus>(fields, key);
            assert(CollaboratorState::faults(fields)[2] == Some(missing(key)));
        } else if place == 3 {
            lemma_absent_required::<bool>(fields, key);
            assert(CollaboratorState::faults(fields)[3] == Some(missing(key)));
        }
    }
}

impl Decode for CollaboratorState {
    open spec fn decoded(v: JsonValue) -> Result<CollaboratorStateView, DecodeErrorView> {
        match record_of(v) {
            Ok(fields) => match first_failure(CollaboratorState::faults(fields)) {
                Some(e) => Err(e),
                None => Ok(CollaboratorState::assembled(fields)),
            },
            Err(e) => Err(e),
        }
    }

    fn decode(j: &Json) -> (r: Result<CollaboratorState, DecodeError>) {
        let fields = record(j)?;
        let ghost faults = CollaboratorState::faults(members_model(fields@));
        let project_id = required::<ProjectId>(fields, "project_id")?;
        assert(first_failure(faults) == first_failure_from(faults, 1));
        let user_id = required::<UserId>(fields, "user_id")?;
        assert(first_failure(faults) == first_failure_from(faults, 2));
        let state = required::<CollaboratorStatus>(fields, "state")?;
        assert(first_failure(faults) == first_failure_from(faults, 3));
        let is_deleted = required::<bool>(fields, "is_deleted")?;
        assert(first_failure(faults) == first_failure_from(faults, 4));
        Ok(CollaboratorState {
            project_id,
            user_id,
            state,
            is_deleted,
        })
    }
}

} // verus!
