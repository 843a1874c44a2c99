//! The guard pipeline shared by every create and update use case.
//!
//! A use case validates and canonicalises its command, then hands out a
//! [`Step`]: the caller performs the lookup it asks for, answers it, and so on
//! until the pipeline asks for the write or finishes with a failure. Guards run
//! in order and the first one that rejects ends the pipeline; the write is only
//! asked for once every guard has passed.
use vstd::prelude::*;

use crate::failure::{DomainFailure, FailureModel, InvalidField};

verus! {

/// A lookup that a pipeline asks its store for. Text keys (signature,
/// document number) are those of the record that the pipeline carries.
#[derive(Debug, Clone, Copy, PartialEq, Eq, Structural)]
pub enum Query {
    /// The person with this id.
    PersonById(i32),
    /// The document type with this id.
    DocumentTypeById(i32),
    /// The gender with this id.
    GenderById(i32),
    /// The product family with this id.
    FamilyById(i32),
    /// Any person whose signature is the record's.
    PersonBySignature,
    /// A person whose signature is the record's, other than the one with this id.
    OtherPersonBySignature(i32),
    /// Any person with the record's document number and document type.
    PersonByDocument,
    /// A person with the record's document number and type, other than the one with this id.
    OtherPersonByDocument(i32),
    /// Any gender whose signature is the record's.
    GenderBySignature,
    /// A gender whose signature is the record's, other than the one with this id.
    OtherGenderBySignature(i32),
    /// Any product whose signature is the record's.
    ProductBySignature,
}

/// The failure that a guard reports when it rejects.
#[derive(Debug, Clone, Copy, PartialEq, Eq, Structural)]
pub enum Rejection {
    MissingPerson,
    MissingDocumentType,
    MissingGender,
    MissingTargetGender,
    MissingFamily,
    PersonSignatureTaken,
    PersonDocumentTaken,
    GenderSignatureTaken,
    ProductSignatureTaken,
}

/// A guard: a lookup and the failure it leads to. A guard on a reference
/// rejects when the row is missing; a uniqueness guard rejects when one is found.
#[derive(Debug, Clone, Copy, PartialEq, Eq, Structural)]
pub struct Guard {
    pub query: Query,
    pub rejection: Rejection,
}

/// The answer of the store to a lookup.
#[derive(Debug, Clone, Copy, PartialEq, Eq, Structural)]
pub enum Answer {
    Found,
    Missing,
    Failed,
}

/// The answer of the store to a write.
#[derive(Debug, Clone, Copy, PartialEq, Eq, Structural)]
pub enum Written {
    /// The row was written; its id.
    Stored(i32),
    Failed,
}

/// Uniqueness guards reject a row that was found; the others a missing one.
pub open spec fn rejects_found(r: Rejection) -> bool {
    match r {
        Rejection::PersonSignatureTaken | Rejection::PersonDocumentTaken
        | Rejection::GenderSignatureTaken | Rejection::ProductSignatureTaken => true,
        _ => false,
    }
}

/// Whether a guard rejects the answer `found`.
pub open spec fn rejects(r: Rejection, found: bool) -> bool {
    if rejects_found(r) {
        found
    } else {
        !found
    }
}

/// The failure that a rejection reports.
pub open spec fn rejection_view(r: Rejection) -> FailureModel {
    match r {
        Rejection::MissingPerson => FailureModel::InvalidField("person_id"@, "person does not exist"@),
        Rejection::MissingDocumentType => FailureModel::InvalidField(
            "document_type_id"@,
            "document type does not exist"@,
        ),
        Rejection::MissingGender => FailureModel::InvalidField("gender_id"@, "gender does not exist"@),
        Rejection::MissingTargetGender => FailureModel::InvalidField(
            "person_gender_id"@,
            "gender does not exist"@,
        ),
        Rejection::MissingFamily => FailureModel::InvalidField(
            "product_family_id"@,
            "product family does not exist"@,
        ),
        Rejection::PersonSignatureTaken => FailureModel::Conflict("person with signature already exists"@),
        Rejection::PersonDocumentTaken => FailureModel::Conflict("person with document already exists"@),
        Rejection::GenderSignatureTaken => FailureModel::Conflict("gender with signature already exists"@),
        Rejection::ProductSignatureTaken => FailureModel::Conflict("product with signature already exists"@),
    }
}

fn invalid_field(field: &str, message: &str) -> (r: DomainFailure)
    ensures
        r@ == FailureModel::InvalidField(field@, message@),
{
    DomainFailure::InvalidField(InvalidField::new(String::from_str(field), String::from_str(message)))
}

fn conflict(message: &str) -> (r: DomainFailure)
    ensures
        r@ == FailureModel::Conflict(message@),
{
    DomainFailure::Conflict(String::from_str(message))
}

impl Rejection {
    /// The failure reported by this rejection.
    pub fn failure(self) -> (r: DomainFailure)
        ensures
            r@ == rejection_view(self),
    {
        match self {
            Rejection::MissingPerson => invalid_field("person_id", "person does not exist"),
            Rejection::MissingDocumentType => invalid_field("document_type_id", "document type does not exist"),
            Rejection::MissingGender => invalid_field("gender_id", "gender does not exist"),
            Rejection::MissingTargetGender => invalid_field("person_gender_id", "gender does not exist"),
            Rejection::MissingFamily => invalid_field("product_family_id", "product family does not exist"),
            Rejection::PersonSignatureTaken => conflict("person with signature already exists"),
            Rejection::PersonDocumentTaken => conflict("person with document already exists"),
            Rejection::GenderSignatureTaken => conflict("gender with signature already exists"),
            Rejection::ProductSignatureTaken => conflict("product with signature already exists"),
        }
    }
}

/// Where a pipeline stops on an answer to its next guard, if it does.
pub open spec fn stop_reason(pending: Seq<Guard>, a: Answer) -> Option<FailureModel> {
    if pending.len() == 0 || a == Answer::Failed {
        Some(FailureModel::Unknown)
    } else if rejects(pending[0].rejection, a == Answer::Found) {
        Some(rejection_view(pending[0].rejection))
    } else {
        None
    }
}

/// What a store answers to a signature lookup over its rows, given as
/// (id, signature) pairs: `Found` when a row other than the excluded one holds
/// the signature. Other queries are answered `Missing` here.
pub open spec fn signature_answer(q: Query, rows: Seq<(i32, Seq<char>)>, signature: Seq<char>) -> Answer {
    let excluded = match q {
        Query::OtherPersonBySignature(id) => Some(id),
        Query::OtherGenderBySignature(id) => Some(id),
        _ => None,
    };
    let is_signature_query = match q {
        Query::PersonBySignature | Query::GenderBySignature | Query::ProductBySignature
        | Query::OtherPersonBySignature(_) | Query::OtherGenderBySignature(_) => true,
        _ => false,
    };
    if is_signature_query && exists|i: int|
        0 <= i < rows.len() && rows[i].1 == signature && Some(rows[i].0) != excluded {
        Answer::Found
    } else {
        Answer::Missing
    }
}

/// A use case under way: the record it will write and the guards still to pass.
pub struct Pipeline<R> {
    record: R,
    guards: Vec<Guard>,
    next: usize,
}

/// What a pipeline asks of its caller next.
pub enum Step<R> {
    /// Perform the lookup and answer it with [`Pipeline::answer`].
    Ask(Pipeline<R>, Query),
    /// Write the record and report it with [`Pipeline::written`].
    Write(Pipeline<R>),
    /// The use case is over: the id written, or why it failed.
    Finished(Result<i32, DomainFailure>),
}

/// A step that asks for the first of `pending` (or for the write when there
/// is none), carrying `record`.
pub open spec fn begins<R>(s: Step<R>, record: R, pending: Seq<Guard>) -> bool {
    match s {
        Step::Ask(p, q) => pending.len() > 0 && p.held() == record && p.pending() == pending && q
            == pending[0].query,
        Step::Write(p) => pending.len() == 0 && p.held() == record && p.pending() == pending,
        Step::Finished(_) => false,
    }
}

/// The record that a step carries, when it asks for a lookup or the write.
pub open spec fn carried<R>(s: Step<R>) -> R {
    match s {
        Step::Ask(p, _) => p.held(),
        Step::Write(p) => p.held(),
        Step::Finished(_) => arbitrary(),
    }
}

/// A step that ends the use case with failure `f`.
pub open spec fn fails_with<R>(s: Step<R>, f: FailureModel) -> bool {
    match s {
        Step::Finished(r) => r is Err && r->Err_0@ == f,
        _ => false,
    }
}

impl<R> Pipeline<R> {
    #[verifier::type_invariant]
    spec fn well_formed(&self) -> bool {
        self.next <= self.guards.len()
    }

    /// The guards not yet passed, the next one first.
    pub closed spec fn pending(&self) -> Seq<Guard> {
        self.guards@.skip(self.next as int)
    }

    /// The record that the pipeline will write.
    pub closed spec fn held(&self) -> R {
        self.record
    }

    /// The record that the pipeline will write.
    pub fn record(&self) -> (r: &R)
        ensures
            *r == self.held(),
    {
        &self.record
    }

    /// Starts a pipeline that will write `record` once `guards` have passed.
    pub fn start(record: R, guards: Vec<Guard>) -> (r: Step<R>)
        ensures
            begins(r, record, guards@),
    {
        let p = Pipeline { record, guards, next: 0 };
        assert(p.guards@.skip(0) == guards@);
        if p.guards.len() == 0 {
            Step::Write(p)
        } else {
            let q = p.guards[0].query;
            Step::Ask(p, q)
        }
    }

    /// Takes the answer to the lookup that was asked for: the pipeline stops
    /// with the guard's failure if it rejects, with `Unknown` if the store
    /// failed, and otherwise moves on to the next guard or to the write.
    pub fn answer(self, a: Answer) -> (r: Step<R>)
        ensures
            stop_reason(self.pending(), a) is Some ==> fails_with(r, stop_reason(self.pending(), a)->0),
            stop_reason(self.pending(), a) is None ==> begins(r, self.held(), self.pending().drop_first()),
    {
        proof {
            use_type_invariant(&self);
        }
        let ghost pending = self.pending();
        if self.next >= self.guards.len() {
            return Step::Finished(Err(DomainFailure::Unknown));
        }
        if a == Answer::Failed {
            return Step::Finished(Err(DomainFailure::Unknown));
        }
        let g = self.guards[self.next];
        let found = a == Answer::Found;
        let rejected = match g.rejection {
            Rejection::PersonSignatureTaken | Rejection::PersonDocumentTaken
            | Rejection::GenderSignatureTaken | Rejection::ProductSignatureTaken => found,
            _ => !found,
        };
        if rejected {
            return Step::Finished(Err(g.rejection.failure()));
        }
        let p = Pipeline { record: self.record, guards: self.guards, next: self.next + 1 };
        assert(p.pending() =~= pending.drop_first());
        if p.next < p.guards.len() {
            let q = p.guards[p.next].query;
            Step::Ask(p, q)
        } else {
            Step::Write(p)
        }
    }

    /// Takes the answer to the write: the id written, or `Unknown` if the
    /// store failed. A write reported before every guard has passed is refused.
    pub fn written(self, w: Written) -> (r: Result<i32, DomainFailure>)
        ensures
            self.pending().len() == 0 && w is Stored ==> r == Ok::<i32, DomainFailure>(w->Stored_0),
            !(self.pending().len() == 0 && w is Stored) ==> r is Err && r->Err_0@ == FailureModel::Unknown,
    {
        proof {
            use_type_invariant(&self);
        }
        if self.next < self.guards.len() {
            return Err(DomainFailure::Unknown);
        }
        match w {
            Written::Stored(id) => Ok(id),
            Written::Failed => Err(DomainFailure::Unknown),
        }
    }
}

} // verus!
