//! The errors that decoding reports.

use vstd::prelude::*;

verus! {

/// One step on the way from the root of a document to a value inside it.
#[derive(Debug, Clone, Copy, PartialEq, Eq)]
pub enum PathStep {
    /// Into the member of an object that has this name.
    Member(&'static str),
    /// Into the element of an array at this position.
    Element(usize),
}

/// The mathematical value of a [`PathStep`].
pub enum PathStepView {
    Member(Seq<char>),
    Element(nat),
}

impl View for PathStep {
    type V = PathStepView;

    open spec fn view(&self) -> PathStepView {
        match *self {
            PathStep::Member(name) => PathStepView::Member(name@),
            PathStep::Element(index) => PathStepView::Element(index as nat),
        }
    }
}

/// Why a document, or a value inside it, was rejected.
///
/// Every variant carries the path of the offending value, from the value that
/// was handed to the decoder (the empty path) down to the place of the fault.
#[derive(Debug, Clone, PartialEq, Eq)]
pub enum DecodeError {
    /// A member that must be present is absent.
    MissingRequiredField { path: Vec<PathStep> },
    /// An integer that belongs to none of the legal classes of a coded value.
    InvalidEnumeratedValue { path: Vec<PathStep>, value: i32, expected: &'static str },
    /// A value of the wrong JSON kind, or a number outside the range of its field.
    TypeMismatch { path: Vec<PathStep> },
    /// A sequence that must be given is absent, or one that must not be empty is.
    EmptyRequiredSequence { path: Vec<PathStep> },
}

/// The mathematical value of a [`DecodeError`].
pub enum DecodeErrorView {
    MissingRequiredField { path: Seq<PathStepView> },
    InvalidEnumeratedValue { path: Seq<PathStepView>, value: int, expected: Seq<char> },
    TypeMismatch { path: Seq<PathStepView> },
    EmptyRequiredSequence { path: Seq<PathStepView> },
}

/// The steps of a path, each as its mathematical value.
pub open spec fn path_view(path: Seq<PathStep>) -> Seq<PathStepView> {
    path.map_values(|step: PathStep| step@)
}

impl DecodeErrorView {
    /// The same error, seen from one step further out: `step` leads to the
    /// value in which it was found.
    pub open spec fn under(self, step: PathStepView) -> DecodeErrorView {
        match self {
            DecodeErrorView::MissingRequiredField {
                path,
            } => DecodeErrorView::MissingRequiredField { path: seq![step] + path },
            DecodeErrorView::InvalidEnumeratedValue {
                path,
                value,
                expected,
            } => DecodeErrorView::InvalidEnumeratedValue {
                path: seq![step] + path,
                value,
                expected,
            },
            DecodeErrorView::TypeMismatch { path } => DecodeErrorView::TypeMismatch {
                path: seq![step] + path,
            },
            DecodeErrorView::EmptyRequiredSequence {
                path,
            } => DecodeErrorView::EmptyRequiredSequence { path: seq![step] + path },
        }
    }
}

impl View for DecodeError {
    type V = DecodeErrorView;

    open spec fn view(&self) -> DecodeErrorView {
        match *self {
            DecodeError::MissingRequiredField { path } => DecodeErrorView::MissingRequiredField {
                path: path_view(path@),
            },
            DecodeError::InvalidEnumeratedValue {
                path,
                value,
                expected,
            } => DecodeErrorView::InvalidEnumeratedValue {
                path: path_view(path@),
                value: value as int,
                expected: expected@,
            },
            DecodeError::TypeMismatch { path } => DecodeErrorView::TypeMismatch {
                path: path_view(path@),
            },
            DecodeError::EmptyRequiredSequence { path } => DecodeErrorView::EmptyRequiredSequence {
                path: path_view(path@),
            },
        }
    }
}

/// Whether an outcome of decoding is the one that the rules give: the same
/// value, or the same error.
pub open spec fn meets<A: DeepView>(
    outcome: Result<A, DecodeError>,
    rule: Result<A::V, DecodeErrorView>,
) -> bool {
    match outcome {
        Ok(value) => rule == Ok::<A::V, DecodeErrorView>(value.deep_view()),
        Err(error) => rule == Err::<A::V, DecodeErrorView>(error@),
    }
}

impl DecodeError {
    /// A member that must be present is absent from the value that was handed
    /// to the decoder.
    pub fn missing(name: &'static str) -> (e: DecodeError)
        ensures
            e@ == (DecodeErrorView::MissingRequiredField {
                path: seq![PathStepView::Member(name@)],
            }),
    {
        let mut path: Vec<PathStep> = Vec::new();
        path.push(PathStep::Member(name));
        assert(path_view(path@) =~= seq![PathStepView::Member(name@)]);
        DecodeError::MissingRequiredField { path }
    }

    /// A sequence that must be given is absent from the value that was handed
    /// to the decoder.
    pub fn missing_sequence(name: &'static str) -> (e: DecodeError)
        ensures
            e@ == (DecodeErrorView::EmptyRequiredSequence {
                path: seq![PathStepView::Member(name@)],
            }),
    {
        let mut path: Vec<PathStep> = Vec::new();
        path.push(PathStep::Member(name));
        assert(path_view(path@) =~= seq![PathStepView::Member(name@)]);
        DecodeError::EmptyRequiredSequence { path }
    }

    /// The value that was handed to the decoder is of the wrong kind.
    pub fn type_mismatch() -> (e: DecodeError)
        ensures
            e@ == (DecodeErrorView::TypeMismatch { path: Seq::empty() }),
    {
        let e = DecodeError::TypeMismatch { path: Vec::new() };
        assert(path_view(Seq::<PathStep>::empty()) =~= Seq::<PathStepView>::empty());
        e
    }

    /// An integer outside the legal classes of a coded value, found at the
    /// value that was handed to the decoder.
    pub fn invalid_value(value: i32, expected: &'static str) -> (e: DecodeError)
        ensures
            e@ == (DecodeErrorView::InvalidEnumeratedValue {
                path: Seq::empty(),
                value: value as int,
                expected: expected@,
            }),
    {
        let e = DecodeError::InvalidEnumeratedValue { path: Vec::new(), value, expected };
        assert(path_view(Seq::<PathStep>::empty()) =~= Seq::<PathStepView>::empty());
        e
    }

    /// The same error, seen from one step further out.
    pub fn under(self, step: PathStep) -> (e: DecodeError)
        ensures
            e@ == self@.under(step@),
    {
        match self {
            DecodeError::MissingRequiredField { mut path } => {
                let ghost before = path@;
                path.insert(0, step);
                assert(path_view(path@) =~= seq![step@] + path_view(before));
                DecodeError::MissingRequiredField { path }
            },
            DecodeError::InvalidEnumeratedValue { mut path, value, expected } => {
                let ghost before = path@;
                path.insert(0, step);
                assert(path_view(path@) =~= seq![step@] + path_view(before));
                DecodeError::InvalidEnumeratedValue { path, value, expected }
            },
            DecodeError::TypeMismatch { mut path } => {
                let ghost before = path@;
                path.insert(0, step);
                assert(path_view(path@) =~= seq![step@] + path_view(before));
                DecodeError::TypeMismatch { path }
            },
            DecodeError::EmptyRequiredSequence { mut path } => {
                let ghost before = path@;
                path.insert(0, step);
                assert(path_view(path@) =~= seq![step@] + path_view(before));
                DecodeError::EmptyRequiredSequence { path }
            },
        }
    }
}

} // verus!
