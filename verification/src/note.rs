//! Notes on items and on projects, and the files attached to them.

use vstd::prelude::*;

use crate::codes::Flag;
use crate::decode::{
    Decode, failure, Fields, first_failure, first_failure_from, lemma_absent_required,
    lemma_first_failure, missing, none_before, record, record_of, required, required_of,
};
use crate::error::{DecodeError, DecodeErrorView};
use crate::ids::{ItemId, NoteId, ProjectId, ProjectNoteId, UserId};
use crate::json::{Json, JsonValue, member, members_model};
use crate::names::UploadState;
use crate::reactions::{Reactions, ReactionView};

verus! {

/// A file attached to a note.
#[derive(Debug, PartialEq, Eq)]
pub struct FileAttachment {
    /// The media type.
    pub file_type: String,
    /// The name of the file.
    pub file_name: String,
    /// The size in bytes.
    pub file_size: u64,
    /// The address of the file.
    pub file_url: String,
    /// How far the upload has come.
    pub upload_state: UploadState,
}

/// The model of [`FileAttachment`].
pub struct FileAttachmentView {
    pub file_type: Seq<char>,
    pub file_name: Seq<char>,
    pub file_size: u64,
    pub file_url: Seq<char>,
    pub upload_state: UploadState,
}

impl DeepView for FileAttachment {
    type V = FileAttachmentView;

    open spec fn deep_view(&self) -> FileAttachmentView {
        FileAttachmentView {
            file_type: self.file_type.deep_view(),
            file_name: self.file_name.deep_view(),
            file_size: self.file_size.deep_view(),
            file_url: self.file_url.deep_view(),
            upload_state: self.upload_state.deep_view(),
        }
    }
}

impl FileAttachment {
    /// The failure of each field, in the order in which the fields are declared.
    pub open spec fn faults(fields: Fields) -> Seq<Option<DecodeErrorView>> {
        seq![
            failure(required_of::<String>(fields, "file_type"@)),
            failure(required_of::<String>(fields, "file_name"@)),
            failure(required_of::<u64>(fields, "file_size"@)),
            failure(required_of::<String>(fields, "file_url"@)),
            failure(required_of::<UploadState>(fields, "upload_state"@)),
        ]
    }

    /// The record that the fields make where none of them fails.
    pub open spec fn assembled(fields: Fields) -> FileAttachmentView {
        FileAttachmentView {
            file_type: required_of::<String>(fields, "file_type"@)->Ok_0,
            file_name: required_of::<String>(fields, "file_name"@)->Ok_0,
            file_size: required_of::<u64>(fields, "file_size"@)->Ok_0,
            file_url: required_of::<String>(fields, "file_url"@)->Ok_0,
            upload_state: required_of::<UploadState>(fields, "upload_state"@)->Ok_0,
        }
    }

    /// The key of the field at a place, the fields counted from zero as they
    /// are declared.
    pub open spec fn key_at(place: int) -> Seq<char> {
        if place == 0 {
            "file_type"@
        } else if place == 1 {
            "file_name"@
        } else if place == 2 {
            "file_size"@
        } else if place == 3 {
            "file_url"@
        } else {
            "upload_state"@
        }
    }

    /// Whether the field at a place is required.
    pub open spec fn required_at(place: int) -> bool {
        place == 0 || place == 1 || place == 2 || place == 3 || place == 4
    }

    /// A record that lacks a required field does not decode. Since a record
    /// fails as the first of its fields that fails, the failure names the
    /// lacking field unless a field declared before it fails.
    pub proof fn lemma_missing_field(fields: Fields, place: int)
        requires
            FileAttachment::required_at(place),
            member(fields, FileAttachment::key_at(place)) is None,
        ensures
            FileAttachment::decoded(JsonValue::Object(fields)) is Err,
            none_before(FileAttachment::faults(fields), place) ==> FileAttachment::decoded(JsonValue::Object(fields))
                == Err::<FileAttachmentView, DecodeErrorView>(missing(FileAttachment::key_at(place))),
    {
        let key = FileAttachment::key_at(place);
        lemma_first_failure(FileAttachment::faults(fields));
        if place == 0 {
            lemma_absent_required::<String>(fields, key);
            assert(FileAttachment::faults(fields)[0] == Some(missing(key)));
        } else if place == 1 {
            lemma_absent_required::<String>(fields, key);
            assert(FileAttachment::faults(fields)[1] == Some(missing(key)));
        } else if place == 2 {
            lemma_absent_required::<u64>(fields, key);
            assert(FileAttachment::faults(fields)[2] == Some(missing(key)));
        } else if place == 3 {
            lemma_absent_required::<String>(fields, key);
            assert(FileAttachment::faults(fields)[3] == Some(missing(key)));
        } else if place == 4 {
            lemma_absent_required::<UploadState>(fields, key);
            assert(FileAttachment::faults(fields)[4] == Some(missing(key)));
        }
    }
}

impl Decode for FileAttachment {
    open spec fn decoded(v: JsonValue) -> Result<FileAttachmentView, DecodeErrorView> {
        match record_of(v) {
            Ok(fields) => match first_failure(FileAttachment::faults(fields)) {
                Some(e) => Err(e),
                None => Ok(FileAttachment::assembled(fields)),
            },
            Err(e) => Err(e),
        }
    }

    fn decode(j: &Json) -> (r: Result<FileAttachment, DecodeError>) {
        let fields = record(j)?;
        let ghost faults = FileAttachment::faults(members_model(fields@));
        let file_type = required::<String>(fields, "file_type")?;
        assert(first_failure(faults) == first_failure_from(faults, 1));
        let file_name = required::<String>(fields, "file_name")?;
        assert(first_failure(faults) == first_failure_from(faults, 2));
        let file_size = required::<u64>(fields, "file_size")?;
        assert(first_failure(faults) == first_failure_from(faults, 3));
        let file_url = required::<String>(fields, "file_url")?;
        assert(first_failure(faults) == first_failure_from(faults, 4));
        let upload_state = required::<UploadState>(fields, "upload_state")?;
        assert(first_failure(faults) == first_failure_from(faults, 5));
        Ok(FileAttachment {
            file_type,
            file_name,
            file_size,
            file_url,
            upload_state,
        })
    }
}

/// A note on an item.
#[derive(Debug, PartialEq, Eq)]
pub struct Note {
    /// The identifier of the note.
    pub id: NoteId,
    /// The user who wrote the note.
    pub posted_uid: UserId,
    /// The item of the note.
    pub item_id: ItemId,
    /// The project of that item.
    pub project_id: ProjectId,
    /// The text.
    pub content: String,
    /// The attached file.
    pub file_attachment: FileAttachment,
    /// The users to tell of the note.
    pub uids_to_notify: Vec<UserId>,
    /// Whether the note is deleted.
    pub is_deleted: Flag,
    /// When the note was written.
    pub posted: String,
    /// The reactions to the note.
    pub reactions: Reactions,
}

/// The model of [`Note`].
pub struct NoteView {
    pub id: NoteId,
    pub posted_uid: UserId,
    pub item_id: ItemId,
    pub project_id: ProjectId,
    pub content: Seq<char>,
    pub file_attachment: FileAttachmentView,
    pub uids_to_notify: Seq<UserId>,
    pub is_deleted: Flag,
    pub posted: Seq<char>,
    pub reactions: Seq<ReactionView>,
}

impl DeepView for Note {
    type V = NoteView;

    open spec fn deep_view(&self) -> NoteView {
        NoteView {
            id: self.id.deep_view(),
            posted_uid: self.posted_uid.deep_view(),
            item_id: self.item_id.deep_view(),
            project_id: self.project_id.deep_view(),
            content: self.content.deep_view(),
            file_attachment: self.file_attachment.deep_view(),
            uids_to_notify: self.uids_to_notify.deep_view(),
            is_deleted: self.is_deleted.deep_view(),
            posted: self.posted.deep_view(),
            reactions: self.reactions.deep_view(),
        }
    }
}

impl Note {
    /// The failure of each field, in the order in which the fields are declared.
    pub open spec fn faults(fields: Fields) -> Seq<Option<DecodeErrorView>> {
        seq![
            failure(required_of::<NoteId>(fields, "id"@)),
            failure(required_of::<UserId>(fields, "posted_uid"@)),
            failure(required_of::<ItemId>(fields, "item_id"@)),
            failure(required_of::<ProjectId>(fields, "project_id"@)),
            failure(required_of::<String>(fields, "content"@)),
            failure(required_of::<FileAttachment>(fields, "file_attachment"@)),
            failure(required_of::<Vec<UserId>>(fields, "uids_to_notify"@)),
            failure(required_of::<Flag>(fields, "is_deleted"@)),
            failure(required_of::<String>(fields, "posted"@)),
            failure(required_of::<Reactions>(fields, "reactions"@)),
        ]
    }

    /// The record that the fields make where none of them fails.
    pub open spec fn assembled(fields: Fields) -> NoteView {
        NoteView {
            id: required_of::<NoteId>(fields, "id"@)->Ok_0,
            posted_uid: required_of::<UserId>(fields, "posted_uid"@)->Ok_0,
            item_id: required_of::<ItemId>(fields, "item_id"@)->Ok_0,
            project_id: required_of::<ProjectId>(fields, "project_id"@)->Ok_0,
            content: required_of::<String>(fields, "content"@)->Ok_0,
            file_attachment: required_of::<FileAttachment>(fields, "file_attachment"@)->Ok_0,
            uids_to_notify: required_of::<Vec<UserId>>(fields, "uids_to_notify"@)->Ok_0,
            is_deleted: required_of::<Flag>(fields, "is_deleted"@)->Ok_0,
            posted: required_of::<String>(fields, "posted"@)->Ok_0,
            reactions: required_of::<Reactions>(fields, "reactions"@)->Ok_0,
        }
    }

    /// The key of the field at a place, the fields counted from zero as they
    /// are declared.
    pub open spec fn key_at(place: int) -> Seq<char> {
        if place == 0 {
            "id"@
        } else if place == 1 {
            "posted_uid"@
        } else if place == 2 {
            "item_id"@
        } else if place == 3 {
            "project_id"@
        } else if place == 4 {
            "content"@
        } else if place == 5 {
            "file_attachment"@
        } else if place == 6 {
            "uids_to_notify"@
        } else if place == 7 {
            "is_deleted"@
        } else if place == 8 {
            "posted"@
        } else {
            "reactions"@
        }
    }

    /// Whether the field at a place is required.
    pub open spec fn required_at(place: int) -> bool {
        place == 0 || place == 1 || place == 2 || place == 3 || place == 4 || place == 5
            || place == 6 || place == 7 || place == 8 || place == 9
    }

    /// A record that lacks a required field does not decode. Since a record
    /// fails as the first of its fields that fails, the failure names the
    /// lacking field unless a field declared before it fails.
    pub proof fn lemma_missing_field(fields: Fields, place: int)
        requires
            Note::required_at(place),
            member(fields, Note::key_at(place)) is None,
        ensures
            Note::decoded(JsonValue::Object(fields)) is Err,
            none_before(Note::faults(fields), place) ==> Note::decoded(JsonValue::Object(fields))
                == Err::<NoteView, DecodeErrorView>(missing(Note::key_at(place))),
    {
        let key = Note::key_at(place);
        lemma_first_failure(Note::faults(fields));
        if place == 0 {
            lemma_absent_required::<NoteId>(fields, key);
            assert(Note::faults(fields)[0] == Some(missing(key)));
        } else if place == 1 {
            lemma_absent_required::<UserId>(fields, key);
            assert(Note::faults(fields)[1] == Some(missing(key)));
        } else if place == 2 {
            lemma_absent_required::<ItemId>(fields, key);
            assert(Note::faults(fields)[2] == Some(missing(key)));
        } else if place == 3 {
            lemma_absent_required::<ProjectId>(fields, key);
            assert(Note::faults(fields)[3] == Some(missing(key)));
        } else if place == 4 {
            lemma_absent_required::<String>(fields, key);
            assert(Note::faults(fields)[4] == Some(missing(key)));
        } else if place == 5 {
            lemma_absent_required::<FileAttachment>(fields, key);
            assert(Note::faults(fields)[5] == Some(missing(key)));
        } else if place == 6 {
            lemma_absent_required::<Vec<UserId>>(fields, key);
            assert(Note::faults(fields)[6] == Some(missing(key)));
        } else if place == 7 {
            lemma_absent_required::<Flag>(fields, key);
            assert(Note::faults(fields)[7] == Some(missing(key)));
        } else if place == 8 {
            lemma_absent_required::<String>(fields, key);
            assert(Note::faults(fields)[8] == Some(missing(key)));
        } else if place == 9 {
            lemma_absent_required::<Reactions>(fields, key);
            assert(Note::faults(fields)[9] == Some(missing(key)));
        }
    }
}

impl Decode for Note {
    open spec fn decoded(v: JsonValue) -> Result<NoteView, DecodeErrorView> {
        match record_of(v) {
            Ok(fields) => match first_failure(Note::faults(fields)) {
                Some(e) => Err(e),
                None => Ok(Note::assembled(fields)),
            },
            Err(e) => Err(e),
        }
    }

    fn decode(j: &Json) -> (r: Result<Note, DecodeError>) {
        let fields = record(j)?;
        let ghost faults = Note::faults(members_model(fields@));
        let id = required::<NoteId>(fields, "id")?;
        assert(first_failure(faults) == first_failure_from(faults, 1));
        let posted_uid = required::<UserId>(fields, "posted_uid")?;
        assert(first_failure(faults) == first_failure_from(faults, 2));
        let item_id = required::<ItemId>(fields, "item_id")?;
        assert(first_failure(faults) == first_failure_from(faults, 3));
        let project_id = required::<ProjectId>(fields, "project_id")?;
        assert(first_failure(faults) == first_failure_from(faults, 4));
        let content = required::<String>(fields, "content")?;
        assert(first_failure(faults) == first_failure_from(faults, 5));
        let file_attachment = required::<FileAttachment>(fields, "file_attachment")?;
        assert(first_failure(faults) == first_failure_from(faults, 6));
        let uids_to_notify = required::<Vec<UserId>>(fields, "uids_to_notify")?;
        assert(first_failure(faults) == first_failure_from(faults, 7));
        let is_deleted = required::<Flag>(fields, "is_deleted")?;
        assert(first_failure(faults) == first_failure_from(faults, 8));
        let posted = required::<String>(fields, "posted")?;
        assert(first_failure(faults) == first_failure_from(faults, 9));
        let reactions = required::<Reactions>(fields, "reactions")?;
        assert(first_failure(faults) == first_failure_from(faults, 10));
        Ok(Note {
            id,
            posted_uid,
            item_id,
            project_id,
            content,
            file_attachment,
            uids_to_notify,
            is_deleted,
            posted,
            reactions,
        })
    }
}

/// A note on a project.
#[derive(Debug, PartialEq, Eq)]
pub struct ProjectNote {
    /// The identifier of the note.
    pub id: ProjectNoteId,
    /// The user who wrote the note.
    pub posted_uid: UserId,
    /// The project of the note.
    pub project_id: ProjectId,
    /// The text.
    pub content: String,
    /// The attached file.
    pub file_attachment: FileAttachment,
    /// The users to tell of the note.
    pub uids_to_notify: Vec<UserId>,
    /// Whether the note is deleted.
    pub is_deleted: Flag,
    /// When the note was written.
    pub posted: String,
    /// The reactions to the note.
    pub reactions: Reactions,
}

/// The model of [`ProjectNote`].
pub struct ProjectNoteView {
    pub id: ProjectNoteId,
    pub posted_uid: UserId,
    pub project_id: ProjectId,
    pub content: Seq<char>,
    pub file_attachment: FileAttachmentView,
    pub uids_to_notify: Seq<UserId>,
    pub is_deleted: Flag,
    pub posted: Seq<char>,
    pub reactions: Seq<ReactionView>,
}

impl DeepView for ProjectNote {
    type V = ProjectNoteView;

    open spec fn deep_view(&self) -> ProjectNoteView {
        ProjectNoteView {
            id: self.id.deep_view(),
            posted_uid: self.posted_uid.deep_view(),
            project_id: self.project_id.deep_view(),
            content: self.content.deep_view(),
            file_attachment: self.file_attachment.deep_view(),
            uids_to_notify: self.uids_to_notify.deep_view(),
            is_deleted: self.is_deleted.deep_view(),
            posted: self.posted.deep_view(),
            reactions: self.reactions.deep_view(),
        }
    }
}

impl ProjectNote {
    /// The failure of each field, in the order in which the fields are declared.
    pub open spec fn faults(fields: Fields) -> Seq<Option<DecodeErrorView>> {
        seq![
            failure(required_of::<ProjectNoteId>(fields, "id"@)),
            failure(required_of::<UserId>(fields, "posted_uid"@)),
            failure(required_of::<ProjectId>(fields, "project_id"@)),
            failure(required_of::<String>(fields, "content"@)),
            failure(required_of::<FileAttachment>(fields, "file_attachment"@)),
            failure(required_of::<Vec<UserId>>(fields, "uids_to_notify"@)),
            failure(required_of::<Flag>(fields, "is_deleted"@)),
            failure(required_of::<String>(fields, "posted"@)),
            failure(required_of::<Reactions>(fields, "reactions"@)),
        ]
    }

    /// The record that the fields make where none of them fails.
    pub open spec fn assembled(fields: Fields) -> ProjectNoteView {
        ProjectNoteView {
            id: required_of::<ProjectNoteId>(fields, "id"@)->Ok_0,
            posted_uid: required_of::<UserId>(fields, "posted_uid"@)->Ok_0,
            project_id: required_of::<ProjectId>(fields, "project_id"@)->Ok_0,
            content: required_of::<String>(fields, "content"@)->Ok_0,
            file_attachment: required_of::<FileAttachment>(fields, "file_attachment"@)->Ok_0,
            uids_to_notify: required_of::<Vec<UserId>>(fields, "uids_to_notify"@)->Ok_0,
            is_deleted: required_of::<Flag>(fields, "is_deleted"@)->Ok_0,
            posted: required_of::<String>(fields, "posted"@)->Ok_0,
            reactions: required_of::<Reactions>(fields, "reactions"@)->Ok_0,
        }
    }

    /// The key of the field at a place, the fields counted from zero as they
    /// are declared.
    pub open spec fn key_at(place: int) -> Seq<char> {
        if place == 0 {
            "id"@
        } else if place == 1 {
            "posted_uid"@
        } else if place == 2 {
            "project_id"@
        } else if place == 3 {
            "content"@
        } else if place == 4 {
            "file_attachment"@
        } else if place == 5 {
            "uids_to_notify"@
        } else if place == 6 {
            "is_deleted"@
        } else if place == 7 {
            "posted"@
        } else {
            "reactions"@
        }
    }

    /// Whether the field at a place is required.
    pub open spec fn required_at(place: int) -> bool {
        place == 0 || place == 1 || place == 2 || place == 3 || place == 4 || place == 5
            || place == 6 || place == 7 || place == 8
    }

    /// A record that lacks a required field does not decode. Since a record
    /// fails as the first of its fields that fails, the failure names the
    /// lacking field unless a field declared before it fails.
    pub proof fn lemma_missing_field(fields: Fields, place: int)
        requires
            ProjectNote::required_at(place),
            member(fields, ProjectNote::key_at(place)) is None,
        ensures
            ProjectNote::decoded(JsonValue::Object(fields)) is Err,
            none_before(ProjectNote::faults(fields), place) ==> ProjectNote::decoded(JsonValue::Object(fields))
                == Err::<ProjectNoteView, DecodeErrorView>(missing(ProjectNote::key_at(place))),
    {
        let key = ProjectNote::key_at(place);
        lemma_first_failure(ProjectNote::faults(fields));
        if place == 0 {
            lemma_absent_required::<ProjectNoteId>(fields, key);
            assert(ProjectNote::faults(fields)[0] == Some(missing(key)));
        } else if place == 1 {
            lemma_absent_required::<UserId>(fields, key);
            assert(ProjectNote::faults(fields)[1] == Some(missing(key)));
        } else if place == 2 {
            lemma_absent_required::<ProjectId>(fields, key);
            assert(ProjectNote::faults(fields)[2] == Some(missing(key)));
        } else if place == 3 {
            lemma_absent_required::<String>(fields, key);
            assert(ProjectNote::faults(fields)[3] == Some(missing(key)));
        } else if place == 4 {
            lemma_absent_required::<FileAttachment>(fields, key);
            assert(ProjectNote::faults(fields)[4] == Some(missing(key)));
        } else if place == 5 {
            lemma_absent_required::<Vec<UserId>>(fields, key);
            assert(ProjectNote::faults(fields)[5] == Some(missing(key)));
        } else if place == 6 {
            lemma_absent_required::<Flag>(fields, key);
            assert(ProjectNote::faults(fields)[6] == Some(missing(key)));
        } else if place == 7 {
            lemma_absent_required::<String>(fields, key);
            assert(ProjectNote::faults(fields)[7] == Some(missing(key)));
        } else if place == 8 {
            lemma_absent_required::<Reactions>(fields, key);
            assert(ProjectNote::faults(fields)[8] == Some(missing(key)));
        }
    }
}

impl Decode for ProjectNote {
    open spec fn decoded(v: JsonValue) -> Result<ProjectNoteView, DecodeErrorView> {
        match record_of(v) {
            Ok(fields) => match first_failure(ProjectNote::faults(fields)) {
                Some(e) => Err(e),
                None => Ok(ProjectNote::assembled(fields)),
            },
            Err(e) => Err(e),
        }
    }

    fn decode(j: &Json) -> (r: Result<ProjectNote, DecodeError>) {
        let fields = record(j)?;
        let ghost faults = ProjectNote::faults(members_model(fields@));
        let id = required::<ProjectNoteId>(fields, "id")?;
        assert(first_failure(faults) == first_failure_from(faults, 1));
        let posted_uid = required::<UserId>(fields, "posted_uid")?;
        assert(first_failure(faults) == first_failure_from(faults, 2));
        let project_id = required::<ProjectId>(fields, "project_id")?;
        assert(first_failure(faults) == first_failure_from(faults, 3));
        let content = required::<String>(fields, "content")?;
        assert(first_failure(faults) == first_failure_from(faults, 4));
        let file_attachment = required::<FileAttachment>(fields, "file_attachment")?;
        assert(first_failure(faults) == first_failure_from(faults, 5));
        let uids_to_notify = required::<Vec<UserId>>(fields, "uids_to_notify")?;
        assert(first_failure(faults) == first_failure_from(faults, 6));
        let is_deleted = required::<Flag>(fields, "is_deleted")?;
        assert(first_failure(faults) == first_failure_from(faults, 7));
        let posted = required::<String>(fields, "posted")?;
        assert(first_failure(faults) == first_failure_from(faults, 8));
        let reactions = required::<Reactions>(fields, "reactions")?;
        assert(first_failure(faults) == first_failure_from(faults, 9));
        Ok(ProjectNote {
            id,
            posted_uid,
            project_id,
            content,
            file_attachment,
            uids_to_notify,
            is_deleted,
            posted,
            reactions,
        })
    }
}

} // verus!
