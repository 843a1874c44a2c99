//! People: commands, the signed entity and the create / update / detail use cases.
use vstd::prelude::*;

use crate::failure::{
    violations_view, DomainFailure, FailureModel, FieldViolation, FindManyFailure, FindOneFailure,
    SelectRepoFailure,
};
use crate::pagination::{page_rows, paginate, Page, PaginationQuery};
use crate::pipeline::{
    begins, carried, fails_with, rejection_view, signature_answer, stop_reason, Guard, Pipeline, Query,
    Rejection, Step,
};
use crate::selectors::{PersonAndGenderAndDocument, PersonDetailsSelector, PersonPageSelector};
use crate::signer::{
    decimal, decimal_string, fingerprint, joined, sign, signature_of,
};
use crate::text::{capitalize, capitalized, lower_of, lowercase, trim, trimmed};
use crate::validation::{check_length, length_ok, length_violation};

verus! {

/// Command to register a person.
#[derive(Debug, Clone)]
pub struct CreatePersonCommand {
    pub first_name: String,
    pub last_name: String,
    pub document_number: String,
    pub document_type_id: i32,
    pub gender_id: i32,
}

/// Command to change a registered person.
#[derive(Debug, Clone)]
pub struct UpdatePersonCommand {
    pub person_id: i32,
    pub first_name: String,
    pub last_name: String,
    pub document_number: String,
    pub document_type_id: i32,
    pub gender_id: i32,
}

/// The structural violations of a person's texts, ordered by field name.
pub open spec fn person_violations(first_name: Seq<char>, last_name: Seq<char>, document_number: Seq<char>) -> Seq<
    (Seq<char>, Seq<char>),
> {
    length_violation("document_number"@, document_number) + length_violation("first_name"@, first_name)
        + length_violation("last_name"@, last_name)
}

fn validate_person_texts(first_name: &String, last_name: &String, document_number: &String) -> (r: Result<
    (),
    Vec<FieldViolation>,
>)
    ensures
        r is Ok <==> person_violations(first_name@, last_name@, document_number@).len() == 0,
        r matches Err(v) ==> violations_view(v@) == person_violations(first_name@, last_name@, document_number@),
{
    let mut v: Vec<FieldViolation> = Vec::new();
    assert(violations_view(v@) =~= Seq::empty());
    check_length("document_number", document_number, &mut v);
    check_length("first_name", first_name, &mut v);
    check_length("last_name", last_name, &mut v);
    assert(violations_view(v@) =~= person_violations(first_name@, last_name@, document_number@));
    if v.len() == 0 {
        Ok(())
    } else {
        Err(v)
    }
}

impl CreatePersonCommand {
    /// Checks every length rule and reports all the fields that break one.
    pub fn validate(&self) -> (r: Result<(), Vec<FieldViolation>>)
        ensures
            r is Ok <==> person_violations(self.first_name@, self.last_name@, self.document_number@).len() == 0,
            r matches Err(v) ==> violations_view(v@) == person_violations(
                self.first_name@,
                self.last_name@,
                self.document_number@,
            ),
    {
        validate_person_texts(&self.first_name, &self.last_name, &self.document_number)
    }
}

impl UpdatePersonCommand {
    /// Checks every length rule and reports all the fields that break one.
    pub fn validate(&self) -> (r: Result<(), Vec<FieldViolation>>)
        ensures
            r is Ok <==> person_violations(self.first_name@, self.last_name@, self.document_number@).len() == 0,
            r matches Err(v) ==> violations_view(v@) == person_violations(
                self.first_name@,
                self.last_name@,
                self.document_number@,
            ),
    {
        validate_person_texts(&self.first_name, &self.last_name, &self.document_number)
    }
}

/// A person ready to be stored: canonical names and its signature.
#[derive(Debug, Clone, PartialEq)]
pub struct PersonEnt {
    pub person_id: Option<i32>,
    pub first_name: String,
    pub last_name: String,
    pub document_number: String,
    pub document_type_id: i32,
    pub gender_id: i32,
    pub signature: String,
}

/// The fingerprint parts of a person, in their fixed order: first name, last
/// name, gender, document number, document type.
pub open spec fn person_parts(
    first_name: Seq<char>,
    last_name: Seq<char>,
    document_number: Seq<char>,
    document_type_id: i32,
    gender_id: i32,
) -> Seq<Seq<char>> {
    seq![
        trimmed(first_name),
        trimmed(last_name),
        decimal(gender_id as int),
        trimmed(document_number),
        decimal(document_type_id as int),
    ]
}

/// The signature of a person's natural attributes.
pub open spec fn person_signature(
    first_name: Seq<char>,
    last_name: Seq<char>,
    document_number: Seq<char>,
    document_type_id: i32,
    gender_id: i32,
) -> Seq<char> {
    signature_of(fingerprint(person_parts(first_name, last_name, document_number, document_type_id, gender_id)))
}

/// `e` is the signed form of the given attributes.
pub open spec fn is_signed_person(
    e: PersonEnt,
    person_id: Option<i32>,
    first_name: Seq<char>,
    last_name: Seq<char>,
    document_number: Seq<char>,
    document_type_id: i32,
    gender_id: i32,
) -> bool {
    &&& e.person_id == person_id
    &&& e.first_name@ == capitalized(first_name)
    &&& e.last_name@ == capitalized(last_name)
    &&& e.document_number@ == trimmed(document_number)
    &&& e.document_type_id == document_type_id
    &&& e.gender_id == gender_id
    &&& e.signature@ == person_signature(first_name, last_name, document_number, document_type_id, gender_id)
}

fn push_part(fp: &mut String, part: &String)
    ensures
        final(fp)@ == old(fp)@ + seq!['.'] + part@,
{
    proof {
        reveal_strlit(".");
    }
    fp.append(".");
    fp.append(part.as_str());
}

impl PersonEnt {
    fn sign(
        person_id: Option<i32>,
        first_name: &str,
        last_name: &str,
        document_number: &str,
        document_type_id: i32,
        gender_id: i32,
    ) -> (r: Self)
        ensures
            is_signed_person(r, person_id, first_name@, last_name@, document_number@, document_type_id, gender_id),
    {
        let first = trim(first_name);
        let last = trim(last_name);
        let document = trim(document_number);
        let gender = decimal_string(gender_id);
        let document_type = decimal_string(document_type_id);
        let mut fp = first.clone();
        push_part(&mut fp, &last);
        push_part(&mut fp, &gender);
        push_part(&mut fp, &document);
        push_part(&mut fp, &document_type);
        let ghost parts = person_parts(first_name@, last_name@, document_number@, document_type_id, gender_id);
        proof {
            let p1 = seq![first@];
            let p2 = seq![first@, last@];
            let p3 = seq![first@, last@, gender@];
            let p4 = seq![first@, last@, gender@, document@];
            assert(p2.drop_last() =~= p1);
            assert(p3.drop_last() =~= p2);
            assert(p4.drop_last() =~= p3);
            assert(parts.drop_last() =~= p4);
            assert(joined(p1) == first@);
            assert(joined(p2) == first@ + seq!['.'] + last@);
            assert(joined(p3) == joined(p2) + seq!['.'] + gender@);
            assert(joined(p4) == joined(p3) + seq!['.'] + document@);
            assert(joined(parts) == joined(p4) + seq!['.'] + document_type@);
        }
        let lowered = lowercase(fp.as_str());
        PersonEnt {
            person_id,
            first_name: capitalize(first_name),
            last_name: capitalize(last_name),
            document_number: document,
            document_type_id,
            gender_id,
            signature: sign(lowered.as_str()),
        }
    }

    /// Validates a create command and signs its attributes.
    pub fn try_from_create(value: &CreatePersonCommand) -> (r: Result<Self, DomainFailure>)
        ensures
            r is Ok <==> person_violations(value.first_name@, value.last_name@, value.document_number@).len() == 0,
            r matches Ok(e) ==> is_signed_person(
                e,
                None,
                value.first_name@,
                value.last_name@,
                value.document_number@,
                value.document_type_id,
                value.gender_id,
            ),
            r matches Err(f) ==> f@ == FailureModel::InvalidInput(
                person_violations(value.first_name@, value.last_name@, value.document_number@),
            ),
    {
        match value.validate() {
            Err(v) => Err(DomainFailure::InvalidInput(v)),
            Ok(()) => Ok(
                Self::sign(
                    None,
                    value.first_name.as_str(),
                    value.last_name.as_str(),
                    value.document_number.as_str(),
                    value.document_type_id,
                    value.gender_id,
                ),
            ),
        }
    }

    /// Validates an update command and signs its attributes.
    pub fn try_from_update(value: &UpdatePersonCommand) -> (r: Result<Self, DomainFailure>)
        ensures
            r is Ok <==> person_violations(value.first_name@, value.last_name@, value.document_number@).len() == 0,
            r matches Ok(e) ==> is_signed_person(
                e,
                Some(value.person_id),
                value.first_name@,
                value.last_name@,
                value.document_number@,
                value.document_type_id,
                value.gender_id,
            ),
            r matches Err(f) ==> f@ == FailureModel::InvalidInput(
                person_violations(value.first_name@, value.last_name@, value.document_number@),
            ),
    {
        match value.validate() {
            Err(v) => Err(DomainFailure::InvalidInput(v)),
            Ok(()) => Ok(
                Self::sign(
                    Some(value.person_id),
                    value.first_name.as_str(),
                    value.last_name.as_str(),
                    value.document_number.as_str(),
                    value.document_type_id,
                    value.gender_id,
                ),
            ),
        }
    }
}

/// The guards of a person's creation: its document type and gender exist, no
/// person holds its signature, none its document.
pub open spec fn create_person_guards(document_type_id: i32, gender_id: i32) -> Seq<Guard> {
    seq![
        Guard { query: Query::DocumentTypeById(document_type_id), rejection: Rejection::MissingDocumentType },
        Guard { query: Query::GenderById(gender_id), rejection: Rejection::MissingGender },
        Guard { query: Query::PersonBySignature, rejection: Rejection::PersonSignatureTaken },
        Guard { query: Query::PersonByDocument, rejection: Rejection::PersonDocumentTaken },
    ]
}

/// The guards of a person's update: the person exists, its document type and
/// gender exist, and no other person holds its signature or its document.
pub open spec fn update_person_guards(person_id: i32, document_type_id: i32, gender_id: i32) -> Seq<Guard> {
    seq![
        Guard { query: Query::PersonById(person_id), rejection: Rejection::MissingPerson },
        Guard { query: Query::DocumentTypeById(document_type_id), rejection: Rejection::MissingDocumentType },
        Guard { query: Query::GenderById(gender_id), rejection: Rejection::MissingGender },
        Guard { query: Query::OtherPersonBySignature(person_id), rejection: Rejection::PersonSignatureTaken },
        Guard { query: Query::OtherPersonByDocument(person_id), rejection: Rejection::PersonDocumentTaken },
    ]
}

fn guard(query: Query, rejection: Rejection) -> (g: Guard)
    ensures
        g == (Guard { query, rejection }),
{
    Guard { query, rejection }
}

/// `s` lists the joined row `row`: every field is kept.
pub open spec fn lists_row(s: PersonPageSelector, row: PersonAndGenderAndDocument) -> bool {
    &&& s.person_id == row.person_id
    &&& s.first_name == row.first_name
    &&& s.last_name == row.last_name
    &&& s.document_number == row.document_number
    &&& s.document_type_id == row.document_type_id
    &&& s.document_type_name == row.document_type_name
    &&& s.gender_id == row.gender_id
    &&& s.gender_name == row.gender_name
    &&& s.signature == row.signature
}

/// The use cases on people.
#[derive(Debug, Clone, Copy)]
pub struct PersonService;

impl PersonService {
    /// Starts the creation of a person: validation, then the signed entity
    /// goes through the guards of [`create_person_guards`] and is saved.
    pub fn create(&self, person: &CreatePersonCommand) -> (r: Step<PersonEnt>)
        ensures
            person_violations(person.first_name@, person.last_name@, person.document_number@).len() > 0
                ==> fails_with(
                r,
                FailureModel::InvalidInput(
                    person_violations(person.first_name@, person.last_name@, person.document_number@),
                ),
            ),
            person_violations(person.first_name@, person.last_name@, person.document_number@).len() == 0
                ==> begins(r, carried(r), create_person_guards(person.document_type_id, person.gender_id))
                && is_signed_person(
                carried(r),
                None,
                person.first_name@,
                person.last_name@,
                person.document_number@,
                person.document_type_id,
                person.gender_id,
            ),
    {
        match PersonEnt::try_from_create(person) {
            Err(f) => Step::Finished(Err(f)),
            Ok(ent) => {
                let mut guards: Vec<Guard> = Vec::new();
                guards.push(guard(Query::DocumentTypeById(ent.document_type_id), Rejection::MissingDocumentType));
                guards.push(guard(Query::GenderById(ent.gender_id), Rejection::MissingGender));
                guards.push(guard(Query::PersonBySignature, Rejection::PersonSignatureTaken));
                guards.push(guard(Query::PersonByDocument, Rejection::PersonDocumentTaken));
                assert(guards@ =~= create_person_guards(person.document_type_id, person.gender_id));
                Pipeline::start(ent, guards)
            },
        }
    }

    /// Starts the update of a person: validation, then the signed entity goes
    /// through the guards of [`update_person_guards`], which leave the person
    /// itself out of the uniqueness checks, and is written in place.
    pub fn update_person(&self, command: &UpdatePersonCommand) -> (r: Step<PersonEnt>)
        ensures
            person_violations(command.first_name@, command.last_name@, command.document_number@).len() > 0
                ==> fails_with(
                r,
                FailureModel::InvalidInput(
                    person_violations(command.first_name@, command.last_name@, command.document_number@),
                ),
            ),
            person_violations(command.first_name@, command.last_name@, command.document_number@).len() == 0
                ==> begins(
                r,
                carried(r),
                update_person_guards(command.person_id, command.document_type_id, command.gender_id),
            ) && is_signed_person(
                carried(r),
                Some(command.person_id),
                command.first_name@,
                command.last_name@,
                command.document_number@,
                command.document_type_id,
                command.gender_id,
            ),
    {
        match PersonEnt::try_from_update(command) {
            Err(f) => Step::Finished(Err(f)),
            Ok(ent) => {
                let id = command.person_id;
                let mut guards: Vec<Guard> = Vec::new();
                guards.push(guard(Query::PersonById(id), Rejection::MissingPerson));
                guards.push(guard(Query::DocumentTypeById(ent.document_type_id), Rejection::MissingDocumentType));
                guards.push(guard(Query::GenderById(ent.gender_id), Rejection::MissingGender));
                guards.push(guard(Query::OtherPersonBySignature(id), Rejection::PersonSignatureTaken));
                guards.push(guard(Query::OtherPersonByDocument(id), Rejection::PersonDocumentTaken));
                assert(guards@ =~= update_person_guards(id, command.document_type_id, command.gender_id));
                Pipeline::start(ent, guards)
            },
        }
    }

    /// A page of people, from the joined rows that the store found in
    /// descending id order: the rows of the page, projected for listing.
    pub fn find_all_people(
        &self,
        query: &PaginationQuery,
        found: Result<Vec<PersonAndGenderAndDocument>, SelectRepoFailure>,
    ) -> (r: Result<Page<PersonPageSelector>, FindManyFailure>)
        requires
            query.page >= 1,
            query.page_size >= 1,
        ensures
            found is Err ==> r is Err && r->Err_0@ == FailureModel::Unknown,
            found matches Ok(rows) ==> r matches Ok(p) && p.total == rows@.len() && p.page == (if rows@.len()
                == 0 { 0 } else { query.page }) && p.page_size == query.page_size && p.data@.len() == page_rows(
                rows@,
                *query,
            ).len() && forall|i: int|
                0 <= i < p.data@.len() ==> lists_row(#[trigger] p.data@[i], page_rows(rows@, *query)[i]),
    {
        match found {
            Err(_) => Err(DomainFailure::Unknown),
            Ok(rows) => {
                let page = paginate(rows, query);
                let mut data: Vec<PersonPageSelector> = Vec::new();
                let mut i: usize = 0;
                while i < page.data.len()
                    invariant
                        i <= page.data@.len(),
                        data@.len() == i,
                        forall|j: int| 0 <= j < i ==> lists_row(#[trigger] data@[j], page.data@[j]),
                    decreases page.data@.len() - i,
                {
                    data.push(PersonPageSelector::from(&page.data[i]));
                    i = i + 1;
                }
                Ok(Page { data, total: page.total, page: page.page, page_size: page.page_size })
            },
        }
    }

    /// The details of a person from what the store found for its id: the row itself,
    /// `NotFound` when there is none, `Unknown` when the store failed.
    pub fn find_person_details(
        &self,
        found: Result<Option<PersonDetailsSelector>, SelectRepoFailure>,
    ) -> (r: Result<PersonDetailsSelector, FindOneFailure>)
        ensures
            found matches Ok(Some(d)) ==> r == Ok::<PersonDetailsSelector, DomainFailure>(d),
            found matches Ok(None) ==> r is Err && r->Err_0@ == FailureModel::NotFound("person does not exist"@),
            found is Err ==> r is Err && r->Err_0@ == FailureModel::Unknown,
    {
        match found {
            Ok(Some(d)) => Ok(d),
            Ok(None) => Err(DomainFailure::NotFound(String::from_str("person does not exist"))),
            Err(_) => Err(DomainFailure::Unknown),
        }
    }
}

/// A person's canonical fields and signature ignore whitespace around its
/// texts: inputs whose texts trim alike give equal names, document number
/// and signature.
pub proof fn lemma_person_ignores_surrounding_whitespace(
    first_a: Seq<char>,
    last_a: Seq<char>,
    document_a: Seq<char>,
    first_b: Seq<char>,
    last_b: Seq<char>,
    document_b: Seq<char>,
    document_type_id: i32,
    gender_id: i32,
)
    requires
        trimmed(first_a) == trimmed(first_b),
        trimmed(last_a) == trimmed(last_b),
        trimmed(document_a) == trimmed(document_b),
    ensures
        capitalized(first_a) == capitalized(first_b),
        capitalized(last_a) == capitalized(last_b),
        person_signature(first_a, last_a, document_a, document_type_id, gender_id) == person_signature(
            first_b,
            last_b,
            document_b,
            document_type_id,
            gender_id,
        ),
{
    assert(person_parts(first_a, last_a, document_a, document_type_id, gender_id) =~= person_parts(
        first_b,
        last_b,
        document_b,
        document_type_id,
        gender_id,
    ));
}

/// A person's signature depends only on the lower-case form of its
/// fingerprint: inputs that differ in case alone, so that their joined
/// trimmed texts lower alike, are signed alike.
pub proof fn lemma_person_signature_deterministic(
    first_a: Seq<char>,
    last_a: Seq<char>,
    document_a: Seq<char>,
    first_b: Seq<char>,
    last_b: Seq<char>,
    document_b: Seq<char>,
    document_type_id: i32,
    gender_id: i32,
)
    requires
        lower_of(joined(person_parts(first_a, last_a, document_a, document_type_id, gender_id))) == lower_of(
            joined(person_parts(first_b, last_b, document_b, document_type_id, gender_id)),
        ),
    ensures
        person_signature(first_a, last_a, document_a, document_type_id, gender_id) == person_signature(
            first_b,
            last_b,
            document_b,
            document_type_id,
            gender_id,
        ),
{
}

/// Validation reports every broken rule, not only the first: one violation
/// per field whose length is out of bounds, listed in alphabetical order of
/// the field names (so each field appears once).
pub proof fn lemma_person_violations_complete(first_name: Seq<char>, last_name: Seq<char>, document_number: Seq<char>)
    ensures
        person_violations(first_name, last_name, document_number).len() == (if length_ok(document_number) {
            0int
        } else {
            1int
        }) + (if length_ok(first_name) {
            0int
        } else {
            1int
        }) + (if length_ok(last_name) {
            0int
        } else {
            1int
        }),
        forall|i: int, j: int|
            0 <= i < j < person_violations(first_name, last_name, document_number).len() ==> ((#[trigger] person_violations(
                first_name,
                last_name,
                document_number,
            )[i]).0[0] as u32) < ((#[trigger] person_violations(first_name, last_name, document_number)[j]).0[0] as u32),
{
    reveal_strlit("document_number");
    reveal_strlit("first_name");
    reveal_strlit("last_name");
}

/// On update, the signature guard leaves the person's own row out: when only
/// the person itself holds the new signature the update goes on, and when
/// another person holds it the update fails with a conflict.
pub proof fn lemma_update_signature_excludes_self(
    rows: Seq<(i32, Seq<char>)>,
    id: i32,
    document_type_id: i32,
    gender_id: i32,
    signature: Seq<char>,
)
    ensures
        ({
            let pending = update_person_guards(id, document_type_id, gender_id).skip(3);
            let a = signature_answer(pending[0].query, rows, signature);
            &&& (forall|i: int| 0 <= i < rows.len() && rows[i].1 == signature ==> rows[i].0 == id) ==> stop_reason(
                pending,
                a,
            ) is None
            &&& (exists|i: int| 0 <= i < rows.len() && rows[i].1 == signature && rows[i].0 != id) ==> stop_reason(
                pending,
                a,
            ) == Some(rejection_view(Rejection::PersonSignatureTaken))
        }),
{
    let pending = update_person_guards(id, document_type_id, gender_id).skip(3);
    assert(pending[0] == Guard { query: Query::OtherPersonBySignature(id), rejection: Rejection::PersonSignatureTaken });
    if exists|i: int| 0 <= i < rows.len() && rows[i].1 == signature && rows[i].0 != id {
        let i = choose|i: int| 0 <= i < rows.len() && rows[i].1 == signature && rows[i].0 != id;
        assert(Some(rows[i].0) != Some(id));
    }
}

} // verus!
