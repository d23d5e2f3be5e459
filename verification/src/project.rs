//! Projects and their sections.

use vstd::prelude::*;

use crate::codes::{Color, Flag};
use crate::decode::{
    Decode, defaulted, defaulted_of, failure, Fields, first_failure, first_failure_from,
    lemma_absent_required, lemma_first_failure, missing, none_before, optional, optional_of,
    record, record_of, required, required_of,
};
use crate::error::{DecodeError, DecodeErrorView};
use crate::ids::{ProjectId, ProjectSyncId, SectionId, SectionSyncId};
use crate::json::{Json, JsonValue, member, members_model};
use crate::orders::Order;

verus! {

/// A project: a list of items, possibly under another project.
#[derive(Debug, PartialEq, Eq)]
pub struct Project {
    /// The identifier of the project.
    pub id: ProjectId,
    /// The name.
    pub name: String,
    /// The colour.
    pub color: Color,
    /// The project above this one; it need not be in the snapshot.
    pub parent_id: Option<ProjectId>,
    /// The rank among the projects under the same parent.
    pub child_order: Order,
    /// Whether the projects below are hidden.
    pub collapsed: Flag,
    /// Whether the project is shared.
    pub shared: bool,
    /// Whether the project is deleted.
    pub is_deleted: Flag,
    /// Whether the project is archived.
    pub is_archived: Flag,
    /// Whether the project is a favourite.
    pub is_favorite: Flag,
    /// The identifier shared by the accounts of a shared project.
    pub sync_id: Option<ProjectSyncId>,
    /// Whether the project is the inbox.
    pub inbox_project: bool,
    /// Whether the project is the inbox of the team.
    pub team_inbox: bool,
}

/// The model of [`Project`].
pub struct ProjectView {
    pub id: ProjectId,
    pub name: Seq<char>,
    pub color: Color,
    pub parent_id: Option<ProjectId>,
    pub child_order: Order,
    pub collapsed: Flag,
    pub shared: bool,
    pub is_deleted: Flag,
    pub is_archived: Flag,
    pub is_favorite: Flag,
    pub sync_id: Option<ProjectSyncId>,
    pub inbox_project: bool,
    pub team_inbox: bool,
}

impl DeepView for Project {
    type V = ProjectView;

    open spec fn deep_view(&self) -> ProjectView {
        ProjectView {
            id: self.id.deep_view(),
            name: self.name.deep_view(),
            color: self.color.deep_view(),
            parent_id: self.parent_id.deep_view(),
            child_order: self.child_order.deep_view(),
            collapsed: self.collapsed.deep_view(),
            shared: self.shared.deep_view(),
            is_deleted: self.is_deleted.deep_view(),
            is_archived: self.is_archived.deep_view(),
            is_favorite: self.is_favorite.deep_view(),
            sync_id: self.sync_id.deep_view(),
            inbox_project: self.inbox_project.deep_view(),
            team_inbox: self.team_inbox.deep_view(),
        }
    }
}

impl Project {
    /// The failure of each field, in the order in which the fields are declared.
    pub open spec fn faults(fields: Fields) -> Seq<Option<DecodeErrorView>> {
        seq![
            failure(required_of::<ProjectId>(fields, "id"@)),
            failure(required_of::<String>(fields, "name"@)),
            failure(required_of::<Color>(fields, "color"@)),
            failure(optional_of::<ProjectId>(fields, "parent_id"@)),
            failure(required_of::<Order>(fields, "child_order"@)),
            failure(required_of::<Flag>(fields, "collapsed"@)),
            failure(required_of::<bool>(fields, "shared"@)),
            failure(required_of::<Flag>(fields, "is_deleted"@)),
            failure(required_of::<Flag>(fields, "is_archived"@)),
            failure(required_of::<Flag>(fields, "is_favorite"@)),
            failure(optional_of::<ProjectSyncId>(fields, "sync_id"@)),
            failure(defaulted_of::<bool>(fields, "inbox_project"@, false)),
            failure(defaulted_of::<bool>(fields, "team_inbox"@, false)),
        ]
    }

    /// The record that the fields make where none of them fails.
    pub open spec fn assembled(fields: Fields) -> ProjectView {
        ProjectView {
            id: required_of::<ProjectId>(fields, "id"@)->Ok_0,
            name: required_of::<String>(fields, "name"@)->Ok_0,
            color: required_of::<Color>(fields, "color"@)->Ok_0,
            parent_id: optional_of::<ProjectId>(fields, "parent_id"@)->Ok_0,
            child_order: required_of::<Order>(fields, "child_order"@)->Ok_0,
            collapsed: required_of::<Flag>(fields, "collapsed"@)->Ok_0,
            shared: required_of::<bool>(fields, "shared"@)->Ok_0,
            is_deleted: required_of::<Flag>(fields, "is_deleted"@)->Ok_0,
            is_archived: required_of::<Flag>(fields, "is_archived"@)->Ok_0,
            is_favorite: required_of::<Flag>(fields, "is_favorite"@)->Ok_0,
            sync_id: optional_of::<ProjectSyncId>(fields, "sync_id"@)->Ok_0,
            inbox_project: defaulted_of::<bool>(fields, "inbox_project"@, false)->Ok_0,
            team_inbox: defaulted_of::<bool>(fields, "team_inbox"@, false)->Ok_0,
        }
    }

    /// The key of the field at a place, the fields counted from zero as they
    /// are declared.
    pub open spec fn key_at(place: int) -> Seq<char> {
        if place == 0 {
            "id"@
        } else if place == 1 {
            "name"@
        } else if place == 2 {
            "color"@
        } else if place == 3 {
            "parent_id"@
        } else if place == 4 {
            "child_order"@
        } else if place == 5 {
            "collapsed"@
        } else if place == 6 {
            "shared"@
        } else if place == 7 {
            "is_deleted"@
        } else if place == 8 {
            "is_archived"@
        } else if place == 9 {
            "is_favorite"@
        } else if place == 10 {
            "sync_id"@
        } else if place == 11 {
            "inbox_project"@
        } else {
            "team_inbox"@
        }
    }

    /// Whether the field at a place is required.
    pub open spec fn required_at(place: int) -> bool {
        place == 0 || place == 1 || place == 2 || place == 4 || place == 5 || place == 6
            || place == 7 || place == 8 || place == 9
    }

    /// A record that lacks a required field does not decode. Since a record
    /// fails as the first of its fields that fails, the failure names the
    /// lacking field unless a field declared before it fails.
    pub proof fn lemma_missing_field(fields: Fields, place: int)
        requires
            Project::required_at(place),
            member(fields, Project::key_at(place)) is None,
        ensures
            Project::decoded(JsonValue::Object(fields)) is Err,
            none_before(Project::faults(fields), place) ==> Project::decoded(JsonValue::Object(fields))
                == Err::<ProjectView, DecodeErrorView>(missing(Project::key_at(place))),
    {
        let key = Project::key_at(place);
        lemma_first_failure(Project::faults(fields));
        if place == 0 {
            lemma_absent_required::<ProjectId>(fields, key);
            assert(Project::faults(fields)[0] == Some(missing(key)));
        } else if place == 1 {
            lemma_absent_required::<String>(fields, key);
            assert(Project::faults(fields)[1] == Some(missing(key)));
        } else if place == 2 {
            lemma_absent_required::<Color>(fields, key);
            assert(Project::faults(fields)[2] == Some(missing(key)));
        } else if place == 4 {
            lemma_absent_required::<Order>(fields, key);
            assert(Project::faults(fields)[4] == Some(missing(key)));
        } else if place == 5 {
            lemma_absent_required::<Flag>(fields, key);
            assert(Project::faults(fields)[5] == Some(missing(key)));
        } else if place == 6 {
            lemma_absent_required::<bool>(fields, key);
            assert(Project::faults(fields)[6] == Some(missing(key)));
        } else if place == 7 {
            lemma_absent_required::<Flag>(fields, key);
            assert(Project::faults(fields)[7] == Some(missing(key)));
        } else if place == 8 {
            lemma_absent_required::<Flag>(fields, key);
            assert(Project::faults(fields)[8] == Some(missing(key)));
        } else if place == 9 {
            lemma_absent_required::<Flag>(fields, key);
            assert(Project::faults(fields)[9] == Some(missing(key)));
        }
    }

    /// A record with none of its optional members decodes whenever its required
    /// fields do, and then every optional field has no value and every field
    /// with a default has its default.
    pub proof fn lemma_minimal(fields: Fields)
        requires
            member(fields, "parent_id"@) is None,
            member(fields, "sync_id"@) is None,
            member(fields, "inbox_project"@) is None,
            member(fields, "team_inbox"@) is None,
            required_of::<ProjectId>(fields, "id"@) is Ok,
            required_of::<String>(fields, "name"@) is Ok,
            required_of::<Color>(fields, "color"@) is Ok,
            required_of::<Order>(fields, "child_order"@) is Ok,
            required_of::<Flag>(fields, "collapsed"@) is Ok,
            required_of::<bool>(fields, "shared"@) is Ok,
            required_of::<Flag>(fields, "is_deleted"@) is Ok,
            required_of::<Flag>(fields, "is_archived"@) is Ok,
            required_of::<Flag>(fields, "is_favorite"@) is Ok,
        ensures
            Project::decoded(JsonValue::Object(fields)) is Ok,
            Project::decoded(JsonValue::Object(fields))->Ok_0.parent_id is None,
            Project::decoded(JsonValue::Object(fields))->Ok_0.sync_id is None,
            !Project::decoded(JsonValue::Object(fields))->Ok_0.inbox_project,
            !Project::decoded(JsonValue::Object(fields))->Ok_0.team_inbox,
    {
        lemma_first_failure(Project::faults(fields));
    }
}

impl Decode for Project {
    open spec fn decoded(v: JsonValue) -> Result<ProjectView, DecodeErrorView> {
        match record_of(v) {
            Ok(fields) => match first_failure(Project::faults(fields)) {
                Some(e) => Err(e),
                None => Ok(Project::assembled(fields)),
            },
            Err(e) => Err(e),
        }
    }

    fn decode(j: &Json) -> (r: Result<Project, DecodeError>) {
        let fields = record(j)?;
        let ghost faults = Project::faults(members_model(fields@));
        let id = required::<ProjectId>(fields, "id")?;
        assert(first_failure(faults) == first_failure_from(faults, 1));
        let name = required::<String>(fields, "name")?;
        assert(first_failure(faults) == first_failure_from(faults, 2));
        let color = required::<Color>(fields, "color")?;
        assert(first_failure(faults) == first_failure_from(faults, 3));
        let parent_id = optional::<ProjectId>(fields, "parent_id")?;
        assert(first_failure(faults) == first_failure_from(faults, 4));
        let child_order = required::<Order>(fields, "child_order")?;
        assert(first_failure(faults) == first_failure_from(faults, 5));
        let collapsed = required::<Flag>(fields, "collapsed")?;
        assert(first_failure(faults) == first_failure_from(faults, 6));
        let shared = required::<bool>(fields, "shared")?;
        assert(first_failure(faults) == first_failure_from(faults, 7));
        let is_deleted = required::<Flag>(fields, "is_deleted")?;
        assert(first_failure(faults) == first_failure_from(faults, 8));
        let is_archived = required::<Flag>(fields, "is_archived")?;
        assert(first_failure(faults) == first_failure_from(faults, 9));
        let is_favorite = required::<Flag>(fields, "is_favorite")?;
        assert(first_failure(faults) == first_failure_from(faults, 10));
        let sync_id = optional::<ProjectSyncId>(fields, "sync_id")?;
        assert(first_failure(faults) == first_failure_from(faults, 11));
        let inbox_project = defaulted::<bool>(fields, "inbox_project", false)?;
        assert(first_failure(faults) == first_failure_from(faults, 12));
        let team_inbox = defaulted::<bool>(fields, "team_inbox", false)?;
        assert(first_failure(faults) == first_failure_from(faults, 13));
        Ok(Project {
            id,
            name,
            color,
            parent_id,
            child_order,
            collapsed,
            shared,
            is_deleted,
            is_archived,
            is_favorite,
            sync_id,
            inbox_project,
            team_inbox,
        })
    }
}

/// A section of a project.
#[derive(Debug, PartialEq, Eq)]
pub struct Section {
    /// The identifier of the section.
    pub id: SectionId,
    /// The name.
    pub name: String,
    /// The project of the section.
    pub project_id: ProjectId,
    /// The rank among the sections of the project.
    pub section_order: Order,
    /// Whether the items of the section are hidden.
    pub collapsed: bool,
    /// The identifier shared by the accounts of a shared project.
    pub sync_id: Option<SectionSyncId>,
    /// Whether the section is deleted.
    pub is_deleted: bool,
    /// Whether the section is archived.
    pub is_archived: bool,
    /// When the section was archived.
    pub date_archived: Option<String>,
    /// When the section was added.
    pub date_added: String,
}

/// The model of [`Section`].
pub struct SectionView {
    pub id: SectionId,
    pub name: Seq<char>,
    pub project_id: ProjectId,
    pub section_order: Order,
    pub collapsed: bool,
    pub sync_id: Option<SectionSyncId>,
    pub is_deleted: bool,
    pub is_archived: bool,
    pub date_archived: Option<Seq<char>>,
    pub date_added: Seq<char>,
}

impl DeepView for Section {
    type V = SectionView;

    open spec fn deep_view(&self) -> SectionView {
        SectionView {
            id: self.id.deep_view(),
            name: self.name.deep_view(),
            project_id: self.project_id.deep_view(),
            section_order: self.section_order.deep_view(),
            collapsed: self.collapsed.deep_view(),
            sync_id: self.sync_id.deep_view(),
            is_deleted: self.is_deleted.deep_view(),
            is_archived: self.is_archived.deep_view(),
            date_archived: self.date_archived.deep_view(),
            date_added: self.date_added.deep_view(),
        }
    }
}

impl Section {
    /// The failure of each field, in the order in which the fields are declared.
    pub open spec fn faults(fields: Fields) -> Seq<Option<DecodeErrorView>> {
        seq![
            failure(required_of::<SectionId>(fields, "id"@)),
            failure(required_of::<String>(fields, "name"@)),
            failure(required_of::<ProjectId>(fields, "project_id"@)),
            failure(required_of::<Order>(fields, "section_order"@)),
            failure(required_of::<bool>(fields, "collapsed"@)),
            failure(optional_of::<SectionSyncId>(fields, "sync_id"@)),
            failure(required_of::<bool>(fields, "is_deleted"@)),
            failure(required_of::<bool>(fields, "is_archived"@)),
            failure(optional_of::<String>(fields, "date_archived"@)),
            failure(required_of::<String>(fields, "date_added"@)),
        ]
    }

    /// The record that the fields make where none of them fails.
    pub open spec fn assembled(fields: Fields) -> SectionView {
        SectionView {
            id: required_of::<SectionId>(fields, "id"@)->Ok_0,
            name: required_of::<String>(fields, "name"@)->Ok_0,
            project_id: required_of::<ProjectId>(fields, "project_id"@)->Ok_0,
            section_order: required_of::<Order>(fields, "section_order"@)->Ok_0,
            collapsed: required_of::<bool>(fields, "collapsed"@)->Ok_0,
            sync_id: optional_of::<SectionSyncId>(fields, "sync_id"@)->Ok_0,
            is_deleted: required_of::<bool>(fields, "is_deleted"@)->Ok_0,
            is_archived: required_of::<bool>(fields, "is_archived"@)->Ok_0,
            date_archived: optional_of::<String>(fields, "date_archived"@)->Ok_0,
            date_added: required_of::<String>(fields, "date_added"@)->Ok_0,
        }
    }

    /// The key of the field at a place, the fields counted from zero as they
    /// are declared.
    pub open spec fn key_at(place: int) -> Seq<char> {
        if place == 0 {
            "id"@
        } else if place == 1 {
            "name"@
        } else if place == 2 {
            "project_id"@
        } else if place == 3 {
            "section_order"@
        } else if place == 4 {
            "collapsed"@
        } else if place == 5 {
            "sync_id"@
        } else if place == 6 {
            "is_deleted"@
        } else if place == 7 {
            "is_archived"@
        } else if place == 8 {
            "date_archived"@
        } else {
            "date_added"@
        }
    }

    /// Whether the field at a place is required.
    pub open spec fn required_at(place: int) -> bool {
        place == 0 || place == 1 || place == 2 || place == 3 || place == 4 || place == 6
            || place == 7 || place == 9
    }

    /// A record that lacks a required field does not decode. Since a record
    /// fails as the first of its fields that fails, the failure names the
    /// lacking field unless a field declared before it fails.
    pub proof fn lemma_missing_field(fields: Fields, place: int)
        requires
            Section::required_at(place),
            member(fields, Section::key_at(place)) is None,
        ensures
            Section::decoded(JsonValue::Object(fields)) is Err,
            none_before(Section::faults(fields), place) ==> Section::decoded(JsonValue::Object(fields))
                == Err::<SectionView, DecodeErrorView>(missing(Section::key_at(place))),
    {
        let key = Section::key_at(place);
        lemma_first_failure(Section::faults(fields));
        if place == 0 {
            lemma_absent_required::<SectionId>(fields, key);
            assert(Section::faults(fields)[0] == Some(missing(key)));
        } else if place == 1 {
            lemma_absent_required::<String>(fields, key);
            assert(Section::faults(fields)[1] == Some(missing(key)));
        } else if place == 2 {
            lemma_absent_required::<ProjectId>(fields, key);
            assert(Section::faults(fields)[2] == Some(missing(key)));
        } else if place == 3 {
            lemma_absent_required::<Order>(fields, key);
            assert(Section::faults(fields)[3] == Some(missing(key)));
        } else if place == 4 {
            lemma_absent_required::<bool>(fields, key);
            assert(Section::faults(fields)[4] == Some(missing(key)));
        } else if place == 6 {
            lemma_absent_required::<bool>(fields, key);
            assert(Section::faults(fields)[6] == Some(missing(key)));
        } else if place == 7 {
            lemma_absent_required::<bool>(fields, key);
            assert(Section::faults(fields)[7] == Some(missing(key)));
        } else if place == 9 {
            lemma_absent_required::<String>(fields, key);
            assert(Section::faults(fields)[9] == Some(missing(key)));
        }
    }

    /// A record with none of its optional members decodes whenever its required
    /// fields do, and then every optional field has no value and every field
    /// with a default has its default.
    pub proof fn lemma_minimal(fields: Fields)
        requires
            member(fields, "sync_id"@) is None,
            member(fields, "date_archived"@) is None,
            required_of::<SectionId>(fields, "id"@) is Ok,
            required_of::<String>(fields, "name"@) is Ok,
            required_of::<ProjectId>(fields, "project_id"@) is Ok,
            required_of::<Order>(fields, "section_order"@) is Ok,
            required_of::<bool>(fields, "collapsed"@) is Ok,
            required_of::<bool>(fields, "is_deleted"@) is Ok,
            required_of::<bool>(fields, "is_archived"@) is Ok,
            required_of::<String>(fields, "date_added"@) is Ok,
        ensures
            Section::decoded(JsonValue::Object(fields)) is Ok,
            Section::decoded(JsonValue::Object(fields))->Ok_0.sync_id is None,
            Section::decoded(JsonValue::Object(fields))->Ok_0.date_archived is None,
    {
        lemma_first_failure(Section::faults(fields));
    }
}

impl Decode for Section {
    open spec fn decoded(v: JsonValue) -> Result<SectionView, DecodeErrorView> {
        match record_of(v) {
            Ok(fields) => match first_failure(Section::faults(fields)) {
                Some(e) => Err(e),
                None => Ok(Section::assembled(fields)),
            },
            Err(e) => Err(e),
        }
    }

    fn decode(j: &Json) -> (r: Result<Section, DecodeError>) {
        let fields = record(j)?;
        let ghost faults = Section::faults(members_model(fields@));
        let id = required::<SectionId>(fields, "id")?;
        assert(first_failure(faults) == first_failure_from(faults, 1));
        let name = required::<String>(fields, "name")?;
        assert(first_failure(faults) == first_failure_from(faults, 2));
        let project_id = required::<ProjectId>(fields, "project_id")?;
        assert(first_failure(faults) == first_failure_from(faults, 3));
        let section_order = required::<Order>(fields, "section_order")?;
        assert(first_failure(faults) == first_failure_from(faults, 4));
        let collapsed = required::<bool>(fields, "collapsed")?;
        assert(first_failure(faults) == first_failure_from(faults, 5));
        let sync_id = optional::<SectionSyncId>(fields, "sync_id")?;
        assert(first_failure(faults) == first_failure_from(faults, 6));
        let is_deleted = required::<bool>(fields, "is_deleted")?;
        assert(first_failure(faults) == first_failure_from(faults, 7));
        let is_archived = required::<bool>(fields, "is_archived")?;
        assert(first_failure(faults) == first_failure_from(faults, 8));
        let date_archived = optional::<String>(fields, "date_archived")?;
        assert(first_failure(faults) == first_failure_from(faults, 9));
        let date_added = required::<String>(fields, "date_added")?;
        assert(first_failure(faults) == first_failure_from(faults, 10));
        Ok(Section {
            id,
            name,
            project_id,
            section_order,
            collapsed,
            sync_id,
            is_deleted,
            is_archived,
            date_archived,
            date_added,
        })
    }
}

} // verus!
