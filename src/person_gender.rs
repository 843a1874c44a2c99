//! Person genders: commands, canonical name and signature, and the create /
//! update use cases.
use vstd::prelude::*;

use crate::failure::{
    violations_view, DomainFailure, FailureModel, FieldViolation, FindManyFailure, SelectRepoFailure,
};
use crate::pagination::{page_rows, paginate, Page, PaginationQuery};
use crate::pipeline::{
    begins, carried, fails_with, rejection_view, signature_answer, stop_reason, Guard, Pipeline, Query,
    Rejection, Step,
};
use crate::signer::{name_signature, sign_name};
use crate::text::{capitalize, capitalized};
use crate::validation::{check_length, length_violation};

verus! {

/// Command to register a gender.
#[derive(Debug, Clone)]
pub struct CreatePersonGenderCommand {
    pub name: String,
    pub summary: Option<String>,
}

/// Command to change a registered gender.
#[derive(Debug, Clone)]
pub struct UpdatePersonGenderCommand {
    pub person_gender_id: i32,
    pub name: String,
    pub summary: Option<String>,
}

/// A gender to be stored.
#[derive(Debug, Clone, PartialEq)]
pub struct AddPersonGender {
    pub name: String,
    pub summary: Option<String>,
    pub signature: String,
}

/// New values of a stored gender.
#[derive(Debug, Clone, PartialEq)]
pub struct UpdatePersonGender {
    pub person_gender_id: i32,
    pub name: String,
    pub summary: Option<String>,
    pub signature: String,
}

/// A stored gender.
#[derive(Debug, Clone)]
pub struct PersonGenderSelector {
    pub person_gender_id: i32,
    pub name: String,
    pub summary: Option<String>,
    pub signature: String,
}

/// A stored gender, as listed in a page.
#[derive(Debug, Clone)]
pub struct PersonGenderPageSelector {
    pub person_gender_id: i32,
    pub name: String,
    pub summary: Option<String>,
    pub signature: String,
}

/// The signature of a gender name.
pub struct PersonGenderSignature {
    signature: String,
}

impl View for PersonGenderSignature {
    type V = Seq<char>;

    closed spec fn view(&self) -> Seq<char> {
        self.signature@
    }
}

impl PersonGenderSignature {
    /// Signs a gender name: the digest of its trimmed, lower-case form.
    pub fn new(name: &str) -> (r: Self)
        ensures
            r@ == name_signature(name@),
    {
        PersonGenderSignature { signature: sign_name(name) }
    }

    pub fn get(self) -> (r: String)
        ensures
            r@ == self@,
    {
        self.signature
    }
}

/// The canonical form of a gender name.
pub struct PersonGenderName {
    name: String,
}

impl View for PersonGenderName {
    type V = Seq<char>;

    closed spec fn view(&self) -> Seq<char> {
        self.name@
    }
}

impl PersonGenderName {
    /// Canonicalises a gender name (`" female "` gives `"Female"`).
    pub fn new(name: &str) -> (r: Self)
        ensures
            r@ == capitalized(name@),
    {
        PersonGenderName { name: capitalize(name) }
    }

    pub fn get(self) -> (r: String)
        ensures
            r@ == self@,
    {
        self.name
    }
}

/// The structural violations of a gender command.
pub open spec fn gender_violations(name: Seq<char>) -> Seq<(Seq<char>, Seq<char>)> {
    length_violation("name"@, name)
}

fn validate_name(name: &String) -> (r: Result<(), Vec<FieldViolation>>)
    ensures
        r is Ok <==> gender_violations(name@).len() == 0,
        r matches Err(v) ==> violations_view(v@) == gender_violations(name@),
{
    let mut v: Vec<FieldViolation> = Vec::new();
    assert(violations_view(v@) =~= Seq::empty());
    check_length("name", name, &mut v);
    assert(violations_view(v@) =~= gender_violations(name@));
    if v.len() == 0 {
        Ok(())
    } else {
        Err(v)
    }
}

impl CreatePersonGenderCommand {
    /// Checks every length rule and reports all the fields that break one.
    pub fn validate(&self) -> (r: Result<(), Vec<FieldViolation>>)
        ensures
            r is Ok <==> gender_violations(self.name@).len() == 0,
            r matches Err(v) ==> violations_view(v@) == gender_violations(self.name@),
    {
        validate_name(&self.name)
    }
}

impl UpdatePersonGenderCommand {
    /// Checks every length rule and reports all the fields that break one.
    pub fn validate(&self) -> (r: Result<(), Vec<FieldViolation>>)
        ensures
            r is Ok <==> gender_violations(self.name@).len() == 0,
            r matches Err(v) ==> violations_view(v@) == gender_violations(self.name@),
    {
        validate_name(&self.name)
    }
}

/// A copy of an optional summary.
pub(crate) fn copy_summary(s: &Option<String>) -> (r: Option<String>)
    ensures
        r == *s,
{
    match s {
        Some(t) => Some(t.clone()),
        None => None,
    }
}

/// The guards of a gender's creation: no gender holds its signature.
pub open spec fn create_gender_guards() -> Seq<Guard> {
    seq![Guard { query: Query::GenderBySignature, rejection: Rejection::GenderSignatureTaken }]
}

/// The guards of a gender's update: the gender exists and no other gender
/// holds its signature.
pub open spec fn update_gender_guards(person_gender_id: i32) -> Seq<Guard> {
    seq![
        Guard { query: Query::GenderById(person_gender_id), rejection: Rejection::MissingTargetGender },
        Guard { query: Query::OtherGenderBySignature(person_gender_id), rejection: Rejection::GenderSignatureTaken },
    ]
}

/// The use cases on genders.
#[derive(Debug, Clone, Copy)]
pub struct PersonGenderService;

impl PersonGenderService {
    /// Starts the creation of a gender: validation, canonical name and
    /// signature, then the guards of [`create_gender_guards`] and the save.
    pub fn create(&self, cmd: &CreatePersonGenderCommand) -> (r: Step<AddPersonGender>)
        ensures
            gender_violations(cmd.name@).len() > 0 ==> fails_with(
                r,
                FailureModel::InvalidInput(gender_violations(cmd.name@)),
            ),
            gender_violations(cmd.name@).len() == 0 ==> begins(r, carried(r), create_gender_guards())
                && carried(r).name@ == capitalized(cmd.name@) && carried(r).summary == cmd.summary
                && carried(r).signature@ == name_signature(cmd.name@),
    {
        match cmd.validate() {
            Err(v) => Step::Finished(Err(DomainFailure::InvalidInput(v))),
            Ok(()) => {
                let gender_signature = PersonGenderSignature::new(cmd.name.as_str()).get();
                let gender_name = PersonGenderName::new(cmd.name.as_str()).get();
                let event = AddPersonGender {
                    name: gender_name,
                    summary: copy_summary(&cmd.summary),
                    signature: gender_signature,
                };
                let mut guards: Vec<Guard> = Vec::new();
                guards.push(Guard { query: Query::GenderBySignature, rejection: Rejection::GenderSignatureTaken });
                assert(guards@ =~= create_gender_guards());
                Pipeline::start(event, guards)
            },
        }
    }

    /// Starts the update of a gender: validation, canonical name and
    /// signature, then the guards of [`update_gender_guards`], which leave the
    /// gender itself out of the signature check, and the write.
    pub fn update_person_gender(&self, command: &UpdatePersonGenderCommand) -> (r: Step<UpdatePersonGender>)
        ensures
            gender_violations(command.name@).len() > 0 ==> fails_with(
                r,
                FailureModel::InvalidInput(gender_violations(command.name@)),
            ),
            gender_violations(command.name@).len() == 0 ==> begins(
                r,
                carried(r),
                update_gender_guards(command.person_gender_id),
            ) && carried(r).person_gender_id == command.person_gender_id && carried(r).name@ == capitalized(
                command.name@,
            ) && carried(r).summary == command.summary && carried(r).signature@ == name_signature(command.name@),
    {
        match command.validate() {
            Err(v) => Step::Finished(Err(DomainFailure::InvalidInput(v))),
            Ok(()) => {
                let id = command.person_gender_id;
                let gender_signature = PersonGenderSignature::new(command.name.as_str()).get();
                let gender_name = PersonGenderName::new(command.name.as_str()).get();
                let event = UpdatePersonGender {
                    person_gender_id: id,
                    name: gender_name,
                    summary: copy_summary(&command.summary),
                    signature: gender_signature,
                };
                let mut guards: Vec<Guard> = Vec::new();
                guards.push(Guard { query: Query::GenderById(id), rejection: Rejection::MissingTargetGender });
                guards.push(Guard { query: Query::OtherGenderBySignature(id), rejection: Rejection::GenderSignatureTaken });
                assert(guards@ =~= update_gender_guards(id));
                Pipeline::start(event, guards)
            },
        }
    }
}

/// On update, the signature guard leaves the entity's own row out: when only
/// the entity itself holds the new signature the update goes on, and when
/// another gender holds it the update fails with a conflict.
pub proof fn lemma_update_signature_excludes_self(rows: Seq<(i32, Seq<char>)>, id: i32, signature: Seq<char>)
    ensures
        ({
            let pending = update_gender_guards(id).drop_first();
            let a = signature_answer(pending[0].query, rows, signature);
            &&& (forall|i: int| 0 <= i < rows.len() && rows[i].1 == signature ==> rows[i].0 == id) ==> stop_reason(
                pending,
                a,
            ) is None
            &&& (exists|i: int| 0 <= i < rows.len() && rows[i].1 == signature && rows[i].0 != id) ==> stop_reason(
                pending,
                a,
            ) == Some(rejection_view(Rejection::GenderSignatureTaken))
        }),
{
    let pending = update_gender_guards(id).drop_first();
    assert(pending[0] == Guard { query: Query::OtherGenderBySignature(id), rejection: Rejection::GenderSignatureTaken });
    if exists|i: int| 0 <= i < rows.len() && rows[i].1 == signature && rows[i].0 != id {
        let i = choose|i: int| 0 <= i < rows.len() && rows[i].1 == signature && rows[i].0 != id;
        assert(Some(rows[i].0) != Some(id));
    }
}

impl PersonGenderService {
    /// A page of genders, from the rows that the store found in descending id order.
    pub fn find_person_gender_by_criteria(
        &self,
        query: &PaginationQuery,
        found: Result<Vec<PersonGenderPageSelector>, SelectRepoFailure>,
    ) -> (r: Result<Page<PersonGenderPageSelector>, FindManyFailure>)
        requires
            query.page >= 1,
            query.page_size >= 1,
        ensures
            found is Err ==> r is Err && r->Err_0@ == FailureModel::Unknown,
            found matches Ok(rows) ==> r matches Ok(p) && p.data@ == page_rows(rows@, *query) && p.total
                == rows@.len() && p.page == (if rows@.len() == 0 { 0 } else { query.page }) && p.page_size
                == query.page_size,
    {
        match found {
            Err(_) => Err(DomainFailure::Unknown),
            Ok(rows) => Ok(paginate(rows, query)),
        }
    }
}

} // verus!
