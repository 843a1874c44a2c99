//! Failures that the use cases report to their callers.
use vstd::prelude::*;

verus! {

/// One structural violation: the field and the kind of rule it broke.
#[derive(Debug, Clone)]
pub struct FieldViolation {
    pub field: String,
    pub error: String,
}

impl View for FieldViolation {
    type V = (Seq<char>, Seq<char>);

    open spec fn view(&self) -> (Seq<char>, Seq<char>) {
        (self.field@, self.error@)
    }
}

/// The views of a list of violations.
pub open spec fn violations_view(v: Seq<FieldViolation>) -> Seq<(Seq<char>, Seq<char>)> {
    v.map_values(|x: FieldViolation| x@)
}

/// A single business rule that a field broke.
#[derive(Debug, Clone)]
pub struct InvalidField {
    pub field: String,
    pub message: String,
}

impl InvalidField {
    pub fn new(field: String, message: String) -> (r: InvalidField)
        ensures
            r.field == field,
            r.message == message,
    {
        InvalidField { field, message }
    }
}

/// Why a use case failed.
#[derive(Debug, Clone)]
pub enum DomainFailure {
    /// Every structural violation of the command, ordered by field.
    InvalidInput(Vec<FieldViolation>),
    /// A reference to a missing row, or a missing target.
    InvalidField(InvalidField),
    /// A signature or natural key that another row already holds.
    Conflict(String),
    /// The row that a detail lookup asked for does not exist.
    NotFound(String),
    /// The store failed; the cause is not disclosed.
    Unknown,
}

/// What a failure holds, as plain sequences.
pub enum FailureModel {
    InvalidInput(Seq<(Seq<char>, Seq<char>)>),
    InvalidField(Seq<char>, Seq<char>),
    Conflict(Seq<char>),
    NotFound(Seq<char>),
    Unknown,
}

impl View for DomainFailure {
    type V = FailureModel;

    open spec fn view(&self) -> FailureModel {
        match self {
            DomainFailure::InvalidInput(v) => FailureModel::InvalidInput(violations_view(v@)),
            DomainFailure::InvalidField(f) => FailureModel::InvalidField(f.field@, f.message@),
            DomainFailure::Conflict(m) => FailureModel::Conflict(m@),
            DomainFailure::NotFound(m) => FailureModel::NotFound(m@),
            DomainFailure::Unknown => FailureModel::Unknown,
        }
    }
}

/// The transport status that reports a failure: 400 for invalid input or an
/// invalid field, 404 for a missing row, 409 for a conflict, 500 otherwise.
pub open spec fn status_of(f: FailureModel) -> u16 {
    match f {
        FailureModel::InvalidInput(_) | FailureModel::InvalidField(_, _) => 400,
        FailureModel::NotFound(_) => 404,
        FailureModel::Conflict(_) => 409,
        FailureModel::Unknown => 500,
    }
}

impl DomainFailure {
    /// The transport status that reports this failure.
    pub fn status_code(&self) -> (r: u16)
        ensures
            r == status_of(self@),
    {
        match self {
            DomainFailure::InvalidInput(_) | DomainFailure::InvalidField(_) => 400,
            DomainFailure::NotFound(_) => 404,
            DomainFailure::Conflict(_) => 409,
            DomainFailure::Unknown => 500,
        }
    }
}

/// Failure of a create use case.
pub type CreateDomainFailure = DomainFailure;

/// Failure of an update use case.
pub type UpdateDomainFailure = DomainFailure;

/// Failure of a detail lookup.
pub type FindOneFailure = DomainFailure;

/// Failure of a list query.
pub type FindManyFailure = DomainFailure;

/// A failure of the store behind a lookup.
#[derive(Debug, Clone, Copy, PartialEq, Eq)]
pub enum SelectRepoFailure {
    Unknown,
}

/// A failure of the store behind a write.
#[derive(Debug, Clone, Copy, PartialEq, Eq)]
pub enum SaveRepoFailure {
    Unknown,
}

} // verus!
