//! What can go wrong while a build is planned.

use vstd::prelude::*;
use vstd::string::StringExecFns;

verus! {

/// A failure of the build engine.
#[derive(Debug, PartialEq, Eq)]
pub enum Error {
    /// A compile command was given more than its one input.
    TooManyInputs,
    /// The input's file name was asked of a command with several inputs.
    MultipleInputs,
    /// The input's file name was asked of a command without inputs.
    NoInputs,
    /// The input path has no final component.
    InvalidInputName,
    /// The requested output path has no final component.
    InvalidOutputName,
    /// A command was finished before its output was set.
    OutputNotSet,
    /// The output path has no parent directory.
    NoOutputParent,
    /// The toolchain wrote bytes that are not UTF-8.
    InvalidUtf8,
    /// The dependency listing ended with a failure status; holds what the
    /// toolchain wrote to standard error.
    DependencyScanFailure(String),
    /// The dependency listing has no colon; holds the listing.
    UnparseableDependencies(String),
    /// A step was handed an event that it was not waiting for.
    UnexpectedEvent,
    /// A failure that the caller met outside the library; holds its words.
    Custom(String),
}

/// The mathematical form of an [`Error`].
pub enum ErrorView {
    TooManyInputs,
    MultipleInputs,
    NoInputs,
    InvalidInputName,
    InvalidOutputName,
    OutputNotSet,
    NoOutputParent,
    InvalidUtf8,
    DependencyScanFailure(Seq<char>),
    UnparseableDependencies(Seq<char>),
    UnexpectedEvent,
    Custom(Seq<char>),
}

impl View for Error {
    type V = ErrorView;

    open spec fn view(&self) -> ErrorView {
        match self {
            Error::TooManyInputs => ErrorView::TooManyInputs,
            Error::MultipleInputs => ErrorView::MultipleInputs,
            Error::NoInputs => ErrorView::NoInputs,
            Error::InvalidInputName => ErrorView::InvalidInputName,
            Error::InvalidOutputName => ErrorView::InvalidOutputName,
            Error::OutputNotSet => ErrorView::OutputNotSet,
            Error::NoOutputParent => ErrorView::NoOutputParent,
            Error::InvalidUtf8 => ErrorView::InvalidUtf8,
            Error::DependencyScanFailure(text) => ErrorView::DependencyScanFailure(text@),
            Error::UnparseableDependencies(text) => ErrorView::UnparseableDependencies(text@),
            Error::UnexpectedEvent => ErrorView::UnexpectedEvent,
            Error::Custom(text) => ErrorView::Custom(text@),
        }
    }
}

impl ErrorView {
    /// What the failure says of itself, without the heading.
    pub open spec fn detail(self) -> Seq<char> {
        match self {
            ErrorView::TooManyInputs => "Compile only a single file at a time."@,
            ErrorView::MultipleInputs => "Multiple input files present."@,
            ErrorView::NoInputs => "No input files present."@,
            ErrorView::InvalidInputName => "Output file is unparseable."@,
            ErrorView::InvalidOutputName => "Output does not have a valid filename."@,
            ErrorView::OutputNotSet => "Output file not set."@,
            ErrorView::NoOutputParent => "Can't get parent."@,
            ErrorView::InvalidUtf8 => "Toolchain output is not valid UTF-8."@,
            ErrorView::DependencyScanFailure(text) => text,
            ErrorView::UnparseableDependencies(text) => "Unparseable dependencies: \""@ + text
                + "\""@,
            ErrorView::UnexpectedEvent => "Unexpected event."@,
            ErrorView::Custom(text) => text,
        }
    }

    /// The line shown to the user: a heading, then the detail.
    pub open spec fn message(self) -> Seq<char> {
        "Custom error: "@ + self.detail()
    }
}

/// The mathematical form of a result that may hold an [`Error`].
pub open spec fn result_view<T: View>(r: Result<T, Error>) -> Result<T::V, ErrorView> {
    match r {
        Ok(value) => Ok(value@),
        Err(e) => Err(e@),
    }
}

impl Error {
    /// A copy of the failure.
    pub fn duplicate(&self) -> (r: Error)
        ensures
            r@ == self@,
    {
        match self {
            Error::TooManyInputs => Error::TooManyInputs,
            Error::MultipleInputs => Error::MultipleInputs,
            Error::NoInputs => Error::NoInputs,
            Error::InvalidInputName => Error::InvalidInputName,
            Error::InvalidOutputName => Error::InvalidOutputName,
            Error::OutputNotSet => Error::OutputNotSet,
            Error::NoOutputParent => Error::NoOutputParent,
            Error::InvalidUtf8 => Error::InvalidUtf8,
            Error::DependencyScanFailure(text) => Error::DependencyScanFailure(text.clone()),
            Error::UnparseableDependencies(text) => Error::UnparseableDependencies(text.clone()),
            Error::UnexpectedEvent => Error::UnexpectedEvent,
            Error::Custom(text) => Error::Custom(text.clone()),
        }
    }

    /// What the failure says of itself, without the heading.
    pub fn detail(&self) -> (r: String)
        ensures
            r@ == self@.detail(),
    {
        match self {
            Error::TooManyInputs => String::from_str("Compile only a single file at a time."),
            Error::MultipleInputs => String::from_str("Multiple input files present."),
            Error::NoInputs => String::from_str("No input files present."),
            Error::InvalidInputName => String::from_str("Output file is unparseable."),
            Error::InvalidOutputName => String::from_str("Output does not have a valid filename."),
            Error::OutputNotSet => String::from_str("Output file not set."),
            Error::NoOutputParent => String::from_str("Can't get parent."),
            Error::InvalidUtf8 => String::from_str("Toolchain output is not valid UTF-8."),
            Error::DependencyScanFailure(text) => text.clone(),
            Error::UnparseableDependencies(text) => {
                let mut out = String::from_str("Unparseable dependencies: \"");
                out.append(text.as_str());
                out.append("\"");
                out
            },
            Error::UnexpectedEvent => String::from_str("Unexpected event."),
            Error::Custom(text) => text.clone(),
        }
    }

    /// The line shown to the user: a heading, then the detail.
    pub fn message(&self) -> (r: String)
        ensures
            r@ == self@.message(),
    {
        let detail = self.detail();
        let mut out = String::from_str("Custom error: ");
        out.append(detail.as_str());
        out
    }
}

} // verus!
