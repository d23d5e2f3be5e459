//! Decoder and data model for the synchronization snapshot of a task service.
//!
//! A payload is decoded in two steps. [`document`] reads its bytes as a JSON
//! document and hands the tree of [`json`] values to the schema: the rules of
//! [`decode`], applied by every record of the model. Decoding is all or
//! nothing: it yields a whole [`snapshot::SyncSnapshot`], or the first failure
//! with the path to the value at fault ([`error`]). [`projection`] turns a
//! snapshot into the tasks to present.
//!
//! Every decoder states what it returns over a mathematical model of the
//! tree, and the laws of the schema are proved beside the functions they are
//! about.

pub mod codes;
pub mod collaborator;
pub mod decode;
pub mod document;
pub mod error;
pub mod ids;
pub mod item;
pub mod json;
pub mod label;
pub mod names;
pub mod note;
pub mod notification;
pub mod orders;
pub mod project;
pub mod projection;
pub mod reactions;
pub mod snapshot;
pub mod user;
