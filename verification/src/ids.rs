//! The identifiers of the service's entities. Each kind is a type of its own
//! over a 64-bit number, so that one kind is never taken for another.

use vstd::prelude::*;

use crate::decode::Decode;
use crate::error::{DecodeError, DecodeErrorView};
use crate::json::{Json, JsonValue};

verus! {

/// The kinds of identifier: one space of numbers each.
#[derive(Clone, Copy, Debug, PartialEq, Eq, Structural)]
pub enum IdSpace {
    User,
    BusinessAccount,
    Project,
    ProjectSync,
    Item,
    ItemSync,
    Note,
    ProjectNote,
    Section,
    SectionSync,
    Label,
    Filter,
    Collaborator,
    LiveNotification,
}

/// An identifier: a number in the space of its kind.
pub trait Identifier: Sized {
    /// The space that identifiers of this type live in.
    spec fn space() -> IdSpace;

    /// The number within that space.
    spec fn number(self) -> u64;

    /// The space that identifiers of this type live in.
    fn id_space() -> (s: IdSpace)
        ensures
            s == Self::space(),
    ;

    /// The number within that space.
    fn raw(&self) -> (n: u64)
        ensures
            n == self.number(),
    ;
}

/// Whether two identifiers name the same entity: the same number in the same
/// space.
pub open spec fn same_entity<A: Identifier, B: Identifier>(a: A, b: B) -> bool {
    A::space() == B::space() && a.number() == b.number()
}

/// Tells whether two identifiers, of one kind or of two, name the same entity.
pub fn names_same_entity<A: Identifier, B: Identifier>(a: &A, b: &B) -> (same: bool)
    ensures
        same == same_entity(*a, *b),
{
    A::id_space() == B::id_space() && a.raw() == b.raw()
}

/// Identifiers of different kinds never name the same entity, whatever their
/// numbers.
pub proof fn lemma_kinds_apart<A: Identifier, B: Identifier>(a: A, b: B)
    requires
        A::space() != B::space(),
    ensures
        !same_entity(a, b),
{
}

/// Within one kind, two identifiers name the same entity exactly when their
/// numbers agree.
pub proof fn lemma_same_kind<A: Identifier>(a: A, b: A)
    ensures
        same_entity(a, b) <==> a.number() == b.number(),
{
}

/// Identifies a user.
#[derive(Clone, Copy, Debug, PartialEq, Eq, Structural, Hash)]
pub struct UserId(pub u64);

impl DeepView for UserId {
    type V = UserId;

    open spec fn deep_view(&self) -> UserId {
        *self
    }
}

impl Identifier for UserId {
    open spec fn space() -> IdSpace {
        IdSpace::User
    }

    open spec fn number(self) -> u64 {
        self.0
    }

    fn id_space() -> (s: IdSpace) {
        IdSpace::User
    }

    fn raw(&self) -> (n: u64) {
        self.0
    }
}

impl Decode for UserId {
    open spec fn decoded(v: JsonValue) -> Result<UserId, DecodeErrorView> {
        match u64::decoded(v) {
            Ok(n) => Ok(UserId(n)),
            Err(e) => Err(e),
        }
    }

    fn decode(j: &Json) -> (r: Result<UserId, DecodeError>) {
        Ok(UserId(u64::decode(j)?))
    }
}

/// Identifies a business account.
#[derive(Clone, Copy, Debug, PartialEq, Eq, Structural, Hash)]
pub struct BusinessAccountId(pub u64);

impl DeepView for BusinessAccountId {
    type V = BusinessAccountId;

    open spec fn deep_view(&self) -> BusinessAccountId {
        *self
    }
}

impl Identifier for BusinessAccountId {
    open spec fn space() -> IdSpace {
        IdSpace::BusinessAccount
    }

    open spec fn number(self) -> u64 {
        self.0
    }

    fn id_space() -> (s: IdSpace) {
        IdSpace::BusinessAccount
    }

    fn raw(&self) -> (n: u64) {
        self.0
    }
}

impl Decode for BusinessAccountId {
    open spec fn decoded(v: JsonValue) -> Result<BusinessAccountId, DecodeErrorView> {
        match u64::decoded(v) {
            Ok(n) => Ok(BusinessAccountId(n)),
            Err(e) => Err(e),
        }
    }

    fn decode(j: &Json) -> (r: Result<BusinessAccountId, DecodeError>) {
        Ok(BusinessAccountId(u64::decode(j)?))
    }
}

/// Identifies a project.
#[derive(Clone, Copy, Debug, PartialEq, Eq, Structural, Hash)]
pub struct ProjectId(pub u64);

impl DeepView for ProjectId {
    type V = ProjectId;

    open spec fn deep_view(&self) -> ProjectId {
        *self
    }
}

impl Identifier for ProjectId {
    open spec fn space() -> IdSpace {
        IdSpace::Project
    }

    open spec fn number(self) -> u64 {
        self.0
    }

    fn id_space() -> (s: IdSpace) {
        IdSpace::Project
    }

    fn raw(&self) -> (n: u64) {
        self.0
    }
}

impl Decode for ProjectId {
    open spec fn decoded(v: JsonValue) -> Result<ProjectId, DecodeErrorView> {
        match u64::decoded(v) {
            Ok(n) => Ok(ProjectId(n)),
            Err(e) => Err(e),
        }
    }

    fn decode(j: &Json) -> (r: Result<ProjectId, DecodeError>) {
        Ok(ProjectId(u64::decode(j)?))
    }
}

/// Identifies a project across the accounts that share it.
#[derive(Clone, Copy, Debug, PartialEq, Eq, Structural, Hash)]
pub struct ProjectSyncId(pub u64);

impl DeepView for ProjectSyncId {
    type V = ProjectSyncId;

    open spec fn deep_view(&self) -> ProjectSyncId {
        *self
    }
}

impl Identifier for ProjectSyncId {
    open spec fn space() -> IdSpace {
        IdSpace::ProjectSync
    }

    open spec fn number(self) -> u64 {
        self.0
    }

    fn id_space() -> (s: IdSpace) {
        IdSpace::ProjectSync
    }

    fn raw(&self) -> (n: u64) {
        self.0
    }
}

impl Decode for ProjectSyncId {
    open spec fn decoded(v: JsonValue) -> Result<ProjectSyncId, DecodeErrorView> {
        match u64::decoded(v) {
            Ok(n) => Ok(ProjectSyncId(n)),
            Err(e) => Err(e),
        }
    }

    fn decode(j: &Json) -> (r: Result<ProjectSyncId, DecodeError>) {
        Ok(ProjectSyncId(u64::decode(j)?))
    }
}

/// Identifies an item.
#[derive(Clone, Copy, Debug, PartialEq, Eq, Structural, Hash, PartialOrd, Ord)]
pub struct ItemId(pub u64);

impl DeepView for ItemId {
    type V = ItemId;

    open spec fn deep_view(&self) -> ItemId {
        *self
    }
}

impl Identifier for ItemId {
    open spec fn space() -> IdSpace {
        IdSpace::Item
    }

    open spec fn number(self) -> u64 {
        self.0
    }

    fn id_space() -> (s: IdSpace) {
        IdSpace::Item
    }

    fn raw(&self) -> (n: u64) {
        self.0
    }
}

impl Decode for ItemId {
    open spec fn decoded(v: JsonValue) -> Result<ItemId, DecodeErrorView> {
        match u64::decoded(v) {
            Ok(n) => Ok(ItemId(n)),
            Err(e) => Err(e),
        }
    }

    fn decode(j: &Json) -> (r: Result<ItemId, DecodeError>) {
        Ok(ItemId(u64::decode(j)?))
    }
}

/// Identifies an item across the accounts that share it.
#[derive(Clone, Copy, Debug, PartialEq, Eq, Structural, Hash)]
pub struct ItemSyncId(pub u64);

impl DeepView for ItemSyncId {
    type V = ItemSyncId;

    open spec fn deep_view(&self) -> ItemSyncId {
        *self
    }
}

impl Identifier for ItemSyncId {
    open spec fn space() -> IdSpace {
        IdSpace::ItemSync
    }

    open spec fn number(self) -> u64 {
        self.0
    }

    fn id_space() -> (s: IdSpace) {
        IdSpace::ItemSync
    }

    fn raw(&self) -> (n: u64) {
        self.0
    }
}

impl Decode for ItemSyncId {
    open spec fn decoded(v: JsonValue) -> Result<ItemSyncId, DecodeErrorView> {
        match u64::decoded(v) {
            Ok(n) => Ok(ItemSyncId(n)),
            Err(e) => Err(e),
        }
    }

    fn decode(j: &Json) -> (r: Result<ItemSyncId, DecodeError>) {
        Ok(ItemSyncId(u64::decode(j)?))
    }
}

/// Identifies a note on an item.
#[derive(Clone, Copy, Debug, PartialEq, Eq, Structural, Hash)]
pub struct NoteId(pub u64);

impl DeepView for NoteId {
    type V = NoteId;

    open spec fn deep_view(&self) -> NoteId {
        *self
    }
}

impl Identifier for NoteId {
    open spec fn space() -> IdSpace {
        IdSpace::Note
    }

    open spec fn number(self) -> u64 {
        self.0
    }

    fn id_space() -> (s: IdSpace) {
        IdSpace::Note
    }

    fn raw(&self) -> (n: u64) {
        self.0
    }
}

impl Decode for NoteId {
    open spec fn decoded(v: JsonValue) -> Result<NoteId, DecodeErrorView> {
        match u64::decoded(v) {
            Ok(n) => Ok(NoteId(n)),
            Err(e) => Err(e),
        }
    }

    fn decode(j: &Json) -> (r: Result<NoteId, DecodeError>) {
        Ok(NoteId(u64::decode(j)?))
    }
}

/// Identifies a note on a project.
#[derive(Clone, Copy, Debug, PartialEq, Eq, Structural, Hash)]
pub struct ProjectNoteId(pub u64);

impl DeepView for ProjectNoteId {
    type V = ProjectNoteId;

    open spec fn deep_view(&self) -> ProjectNoteId {
        *self
    }
}

impl Identifier for ProjectNoteId {
    open spec fn space() -> IdSpace {
        IdSpace::ProjectNote
    }

    open spec fn number(self) -> u64 {
        self.0
    }

    fn id_space() -> (s: IdSpace) {
        IdSpace::ProjectNote
    }

    fn raw(&self) -> (n: u64) {
        self.0
    }
}

impl Decode for ProjectNoteId {
    open spec fn decoded(v: JsonValue) -> Result<ProjectNoteId, DecodeErrorView> {
        match u64::decoded(v) {
            Ok(n) => Ok(ProjectNoteId(n)),
            Err(e) => Err(e),
        }
    }

    fn decode(j: &Json) -> (r: Result<ProjectNoteId, DecodeError>) {
        Ok(ProjectNoteId(u64::decode(j)?))
    }
}

/// Identifies a section.
#[derive(Clone, Copy, Debug, PartialEq, Eq, Structural, Hash)]
pub struct SectionId(pub u64);

impl DeepView for SectionId {
    type V = SectionId;

    open spec fn deep_view(&self) -> SectionId {
        *self
    }
}

impl Identifier for SectionId {
    open spec fn space() -> IdSpace {
        IdSpace::Section
    }

    open spec fn number(self) -> u64 {
        self.0
    }

    fn id_space() -> (s: IdSpace) {
        IdSpace::Section
    }

    fn raw(&self) -> (n: u64) {
        self.0
    }
}

impl Decode for SectionId {
    open spec fn decoded(v: JsonValue) -> Result<SectionId, DecodeErrorView> {
        match u64::decoded(v) {
            Ok(n) => Ok(SectionId(n)),
            Err(e) => Err(e),
        }
    }

    fn decode(j: &Json) -> (r: Result<SectionId, DecodeError>) {
        Ok(SectionId(u64::decode(j)?))
    }
}

/// Identifies a section across the accounts that share it.
#[derive(Clone, Copy, Debug, PartialEq, Eq, Structural, Hash)]
pub struct SectionSyncId(pub u64);

impl DeepView for SectionSyncId {
    type V = SectionSyncId;

    open spec fn deep_view(&self) -> SectionSyncId {
        *self
    }
}

impl Identifier for SectionSyncId {
    open spec fn space() -> IdSpace {
        IdSpace::SectionSync
    }

    open spec fn number(self) -> u64 {
        self.0
    }

    fn id_space() -> (s: IdSpace) {
        IdSpace::SectionSync
    }

    fn raw(&self) -> (n: u64) {
        self.0
    }
}

impl Decode for SectionSyncId {
    open spec fn decoded(v: JsonValue) -> Result<SectionSyncId, DecodeErrorView> {
        match u64::decoded(v) {
            Ok(n) => Ok(SectionSyncId(n)),
            Err(e) => Err(e),
        }
    }

    fn decode(j: &Json) -> (r: Result<SectionSyncId, DecodeError>) {
        Ok(SectionSyncId(u64::decode(j)?))
    }
}

/// Identifies a label.
#[derive(Clone, Copy, Debug, PartialEq, Eq, Structural, Hash)]
pub struct LabelId(pub u64);

impl DeepView for LabelId {
    type V = LabelId;

    open spec fn deep_view(&self) -> LabelId {
        *self
    }
}

impl Identifier for LabelId {
    open spec fn space() -> IdSpace {
        IdSpace::Label
    }

    open spec fn number(self) -> u64 {
        self.0
    }

    fn id_space() -> (s: IdSpace) {
        IdSpace::Label
    }

    fn raw(&self) -> (n: u64) {
        self.0
    }
}

impl Decode for LabelId {
    open spec fn decoded(v: JsonValue) -> Result<LabelId, DecodeErrorView> {
        match u64::decoded(v) {
            Ok(n) => Ok(LabelId(n)),
            Err(e) => Err(e),
        }
    }

    fn decode(j: &Json) -> (r: Result<LabelId, DecodeError>) {
        Ok(LabelId(u64::decode(j)?))
    }
}

/// Identifies a filter.
#[derive(Clone, Copy, Debug, PartialEq, Eq, Structural, Hash)]
pub struct FilterId(pub u64);

impl DeepView for FilterId {
    type V = FilterId;

    open spec fn deep_view(&self) -> FilterId {
        *self
    }
}

impl Identifier for FilterId {
    open spec fn space() -> IdSpace {
        IdSpace::Filter
    }

    open spec fn number(self) -> u64 {
        self.0
    }

    fn id_space() -> (s: IdSpace) {
        IdSpace::Filter
    }

    fn raw(&self) -> (n: u64) {
        self.0
    }
}

impl Decode for FilterId {
    open spec fn decoded(v: JsonValue) -> Result<FilterId, DecodeErrorView> {
        match u64::decoded(v) {
            Ok(n) => Ok(FilterId(n)),
            Err(e) => Err(e),
        }
    }

    fn decode(j: &Json) -> (r: Result<FilterId, DecodeError>) {
        Ok(FilterId(u64::decode(j)?))
    }
}

/// Identifies a collaborator.
#[derive(Clone, Copy, Debug, PartialEq, Eq, Structural, Hash)]
pub struct CollaboratorId(pub u64);

impl DeepView for CollaboratorId {
    type V = CollaboratorId;

    open spec fn deep_view(&self) -> CollaboratorId {
        *self
    }
}

impl Identifier for CollaboratorId {
    open spec fn space() -> IdSpace {
        IdSpace::Collaborator
    }

    open spec fn number(self) -> u64 {
        self.0
    }

    fn id_space() -> (s: IdSpace) {
        IdSpace::Collaborator
    }

    fn raw(&self) -> (n: u64) {
        self.0
    }
}

impl Decode for CollaboratorId {
    open spec fn decoded(v: JsonValue) -> Result<CollaboratorId, DecodeErrorView> {
        match u64::decoded(v) {
            Ok(n) => Ok(CollaboratorId(n)),
            Err(e) => Err(e),
        }
    }

    fn decode(j: &Json) -> (r: Result<CollaboratorId, DecodeError>) {
        Ok(CollaboratorId(u64::decode(j)?))
    }
}

/// Identifies a live notification.
#[derive(Clone, Copy, Debug, PartialEq, Eq, Structural, Hash)]
pub struct LiveNotificationId(pub u64);

impl DeepView for LiveNotificationId {
    type V = LiveNotificationId;

    open spec fn deep_view(&self) -> LiveNotificationId {
        *self
    }
}

impl Identifier for LiveNotificationId {
    open spec fn space() -> IdSpace {
        IdSpace::LiveNotification
    }

    open spec fn number(self) -> u64 {
        self.0
    }

    fn id_space() -> (s: IdSpace) {
        IdSpace::LiveNotification
    }

    fn raw(&self) -> (n: u64) {
        self.0
    }
}

impl Decode for LiveNotificationId {
    open spec fn decoded(v: JsonValue) -> Result<LiveNotificationId, DecodeErrorView> {
        match u64::decoded(v) {
            Ok(n) => Ok(LiveNotificationId(n)),
            Err(e) => Err(e),
        }
    }

    fn decode(j: &Json) -> (r: Result<LiveNotificationId, DecodeError>) {
        Ok(LiveNotificationId(u64::decode(j)?))
    }
}

} // verus!
