//! The ways a deployment can fail.

use vstd::prelude::*;

verus! {

/// Why a template yields no parameter schema.
#[derive(Debug, Clone, Copy, PartialEq, Eq, Structural)]
pub enum SchemaError {
    /// The template text is not a JSON document.
    Malformed,
    /// The document has no `Parameters` member.
    MissingParameters,
    /// The `Parameters` member is not an object.
    ParametersNotObject,
}

/// A fatal condition. None of them is retried; each ends the run.
#[derive(Debug, Clone, PartialEq, Eq)]
pub enum DeployError {
    /// No archive was found in the scanned directory.
    Discovery,
    /// The archive could not be read, or an entry could not be written.
    Extraction(String),
    /// The template declares no usable parameter schema.
    Schema(SchemaError),
    /// Reading the operator's answer failed.
    Input,
    /// A call to the object store or to the stack backend failed; the text
    /// is the backend's full error context.
    RemoteState(String),
}

/// A `DeployError` with its texts as character sequences.
pub enum DeployErrorView {
    Discovery,
    Extraction(Seq<char>),
    Schema(SchemaError),
    Input,
    RemoteState(Seq<char>),
}

impl View for DeployError {
    type V = DeployErrorView;

    open spec fn view(&self) -> DeployErrorView {
        match self {
            DeployError::Discovery => DeployErrorView::Discovery,
            DeployError::Extraction(context) => DeployErrorView::Extraction(context@),
            DeployError::Schema(error) => DeployErrorView::Schema(*error),
            DeployError::Input => DeployErrorView::Input,
            DeployError::RemoteState(context) => DeployErrorView::RemoteState(context@),
        }
    }
}

impl DeployError {
    /// A copy of this error.
    pub fn duplicate(&self) -> (r: DeployError)
        ensures
            r@ == self@,
    {
        match self {
            DeployError::Discovery => DeployError::Discovery,
            DeployError::Extraction(context) => DeployError::Extraction(context.clone()),
            DeployError::Schema(kind) => DeployError::Schema(*kind),
            DeployError::Input => DeployError::Input,
            DeployError::RemoteState(context) => DeployError::RemoteState(context.clone()),
        }
    }
}

} // verus!
