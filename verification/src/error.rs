//! What a failed decode reports: the fault and the place of the value at fault.

use vstd::prelude::*;

verus! {

/// The shape that a value was expected to have.
#[derive(Clone, Copy, Debug, PartialEq, Eq, Structural)]
pub enum Expected {
    /// A JSON object.
    Record,
    /// A JSON array.
    List,
    /// A JSON string.
    Text,
    /// `true` or `false`.
    Boolean,
    /// A number written without fraction or exponent.
    Integer,
    /// Any number.
    Number,
    /// One of the shapes of a start page.
    Page,
}

/// Why a value was rejected.
#[derive(Clone, Copy, Debug, PartialEq, Eq, Structural)]
pub enum Fault {
    /// The payload is not a JSON document; the place is where reading stopped.
    Syntax { line: usize, column: usize },
    /// A required field is absent from its record.
    Missing,
    /// The value does not have the expected shape.
    Mismatch(Expected),
    /// The integer lies outside the width or sign of its field.
    OutOfRange,
    /// The code is not one of those documented for its enumeration.
    UnknownCode,
    /// The key of a map entry is not written as an identifier.
    BadKey,
}

/// One step on the way from the payload's root to a value.
#[derive(Debug, PartialEq, Eq)]
pub enum Step {
    /// Into the member of a record or map with this key.
    Key(String),
    /// Into the element of a list at this position.
    Index(usize),
}

/// The model of a [`Step`].
pub enum StepView {
    Key(Seq<char>),
    Index(nat),
}

impl DeepView for Step {
    type V = StepView;

    open spec fn deep_view(&self) -> StepView {
        match self {
            Step::Key(k) => StepView::Key(k@),
            Step::Index(i) => StepView::Index(*i as nat),
        }
    }
}

/// A decode failure: the fault, and the path from the root to the value at
/// fault, outermost step first.
#[derive(Debug, PartialEq, Eq)]
pub struct DecodeError {
    pub fault: Fault,
    pub path: Vec<Step>,
}

/// The model of a [`DecodeError`].
pub struct DecodeErrorView {
    pub fault: Fault,
    pub path: Seq<StepView>,
}

impl DeepView for DecodeError {
    type V = DecodeErrorView;

    open spec fn deep_view(&self) -> DecodeErrorView {
        DecodeErrorView { fault: self.fault, path: self.path.deep_view() }
    }
}

impl DecodeErrorView {
    /// A fault of the value itself.
    pub open spec fn here(fault: Fault) -> DecodeErrorView {
        DecodeErrorView { fault, path: Seq::empty() }
    }

    /// The same fault, seen from one step further out.
    pub open spec fn under(self, step: StepView) -> DecodeErrorView {
        DecodeErrorView { fault: self.fault, path: seq![step] + self.path }
    }
}

impl DecodeError {
    /// A fault of the value itself.
    pub fn here(fault: Fault) -> (e: DecodeError)
        ensures
            e.deep_view() == DecodeErrorView::here(fault),
    {
        let e = DecodeError { fault, path: Vec::new() };
        assert(e.path.deep_view() =~= Seq::empty());
        e
    }

    /// The same fault, seen from one step further out.
    pub fn under(self, step: Step) -> (e: DecodeError)
        ensures
            e.deep_view() == self.deep_view().under(step.deep_view()),
    {
        let ghost before = self.path.deep_view();
        let ghost s = step.deep_view();
        let mut path = self.path;
        path.insert(0, step);
        assert(path.deep_view() =~= seq![s] + before);
        DecodeError { fault: self.fault, path }
    }
}

/// Why no snapshot could be had: the three classes of failure.
#[derive(Debug, PartialEq, Eq)]
pub enum Failure {
    /// The payload could not be fetched; the text says why.
    Transport(String),
    /// The payload does not decode.
    Decode(DecodeError),
    /// The payload is not text in UTF-8.
    Encoding,
}

/// The model of a [`Failure`].
pub enum FailureView {
    Transport(Seq<char>),
    Decode(DecodeErrorView),
    Encoding,
}

impl DeepView for Failure {
    type V = FailureView;

    open spec fn deep_view(&self) -> FailureView {
        match self {
            Failure::Transport(reason) => FailureView::Transport(reason@),
            Failure::Decode(e) => FailureView::Decode(e.deep_view()),
            Failure::Encoding => FailureView::Encoding,
        }
    }
}

impl From<DecodeError> for Failure {
    fn from(error: DecodeError) -> (failure: Failure) {
        Failure::Decode(error)
    }
}

impl vstd::std_specs::convert::FromSpecImpl<DecodeError> for Failure {
    open spec fn obeys_from_spec() -> bool {
        true
    }

    open spec fn from_spec(error: DecodeError) -> Failure {
        Failure::Decode(error)
    }
}

} // verus!
