use portal::failure::{DomainFailure, FieldViolation, SelectRepoFailure};
use portal::person::{CreatePersonCommand, PersonEnt, PersonService, UpdatePersonCommand};
use portal::person_gender::{
    AddPersonGender, CreatePersonGenderCommand, PersonGenderService, UpdatePersonGender,
    UpdatePersonGenderCommand,
};
use portal::pipeline::{Answer, Query, Step, Written};
use portal::product::{AddProduct, CreateProductCommand, ProductService};
use portal::selectors::PersonDetailsSelector;

/// Runs a pipeline, answering each lookup with `answers` in turn, and the
/// write with `write`. Returns the queries asked, the record written (if the
/// write was reached) and the outcome.
fn drive<R: Clone>(
    mut step: Step<R>,
    answers: &[Answer],
    write: Written,
) -> (Vec<Query>, Option<R>, Result<i32, DomainFailure>) {
    let mut asked = Vec::new();
    let mut next = 0;
    loop {
        match step {
            Step::Ask(p, q) => {
                asked.push(q);
                let a = answers[next];
                next += 1;
                step = p.answer(a);
            }
            Step::Write(p) => {
                let record = p.record().clone();
                return (asked, Some(record), p.written(write));
            }
            Step::Finished(r) => return (asked, None, r),
        }
    }
}

fn violation_fields(f: &DomainFailure) -> Vec<(String, String)> {
    match f {
        DomainFailure::InvalidInput(v) => v
            .iter()
            .map(|x: &FieldViolation| (x.field.clone(), x.error.clone()))
            .collect(),
        _ => panic!("not an invalid input"),
    }
}

fn invalid_field(f: &DomainFailure) -> (String, String) {
    match f {
        DomainFailure::InvalidField(x) => (x.field.clone(), x.message.clone()),
        _ => panic!("not an invalid field"),
    }
}

fn is_conflict(f: &DomainFailure) -> bool {
    matches!(f, DomainFailure::Conflict(_))
}

fn person(first: &str, last: &str, doc: &str, doc_type: i32, gender: i32) -> CreatePersonCommand {
    CreatePersonCommand {
        first_name: first.to_string(),
        last_name: last.to_string(),
        document_number: doc.to_string(),
        document_type_id: doc_type,
        gender_id: gender,
    }
}

fn person_update(id: i32, first: &str, last: &str, doc: &str, doc_type: i32, gender: i32) -> UpdatePersonCommand {
    UpdatePersonCommand {
        person_id: id,
        first_name: first.to_string(),
        last_name: last.to_string(),
        document_number: doc.to_string(),
        document_type_id: doc_type,
        gender_id: gender,
    }
}

#[test]
fn it_validate_required_person_fields() {
    let step = PersonService.create(&person("", "", "", 1, 1));
    let (asked, written, r) = drive::<PersonEnt>(step, &[], Written::Failed);
    assert!(asked.is_empty());
    assert!(written.is_none());
    let fields = violation_fields(&r.unwrap_err());
    assert_eq!(
        fields,
        vec![
            ("document_number".to_string(), "length".to_string()),
            ("first_name".to_string(), "length".to_string()),
            ("last_name".to_string(), "length".to_string()),
        ]
    );
}

#[test]
fn validation_reports_each_broken_field_once() {
    let long = "x".repeat(101);
    let step = PersonService.create(&person("ok", &long, "", 1, 1));
    let (_, _, r) = drive::<PersonEnt>(step, &[], Written::Failed);
    assert_eq!(
        violation_fields(&r.unwrap_err()),
        vec![
            ("document_number".to_string(), "length".to_string()),
            ("last_name".to_string(), "length".to_string()),
        ]
    );
    let edge = "y".repeat(100);
    let step = PersonService.create(&person(&edge, "a", "1", 1, 1));
    assert!(matches!(step, Step::Ask(_, Query::DocumentTypeById(1))));
}

#[test]
fn create_it_not_accept_invalid_document_type() {
    let step = PersonService.create(&person("Idesoft", "Systems", "ID3SOFT", 1, 1));
    let (asked, written, r) = drive(step, &[Answer::Missing], Written::Failed);
    assert_eq!(asked, vec![Query::DocumentTypeById(1)]);
    assert!(written.is_none());
    assert_eq!(
        invalid_field(&r.unwrap_err()),
        ("document_type_id".to_string(), "document type does not exist".to_string())
    );
}

#[test]
fn create_it_not_accept_invalid_gender() {
    let step = PersonService.create(&person("Idesoft", "Systems", "ID3SOFT", 1, 1));
    let (asked, _, r) = drive(step, &[Answer::Found, Answer::Missing], Written::Failed);
    assert_eq!(asked, vec![Query::DocumentTypeById(1), Query::GenderById(1)]);
    assert_eq!(
        invalid_field(&r.unwrap_err()),
        ("gender_id".to_string(), "gender does not exist".to_string())
    );
}

#[test]
fn it_not_accept_duplicate_person() {
    let step = PersonService.create(&person("Idesoft", "Systems", "ID3SOFT", 1, 1));
    let (asked, written, r) = drive(step, &[Answer::Found, Answer::Found, Answer::Found], Written::Failed);
    assert_eq!(asked.last(), Some(&Query::PersonBySignature));
    assert!(written.is_none());
    assert!(is_conflict(&r.unwrap_err()));
}

#[test]
fn create_person_rejects_a_taken_document() {
    let step = PersonService.create(&person("Idesoft", "Systems", "ID3SOFT", 1, 1));
    let answers = [Answer::Found, Answer::Found, Answer::Missing, Answer::Found];
    let (asked, written, r) = drive(step, &answers, Written::Failed);
    assert_eq!(asked.last(), Some(&Query::PersonByDocument));
    assert!(written.is_none());
    match r.unwrap_err() {
        DomainFailure::Conflict(m) => assert_eq!(m, "person with document already exists"),
        _ => panic!("expected a conflict"),
    }
}

#[test]
fn it_accept_and_save_valid_person() {
    let step = PersonService.create(&person(" iDesoft ", " sYstEms ", " ID3SOFT ", 1, 1));
    let answers = [Answer::Found, Answer::Found, Answer::Missing, Answer::Missing];
    let (asked, written, r) = drive(step, &answers, Written::Stored(1));
    assert_eq!(
        asked,
        vec![
            Query::DocumentTypeById(1),
            Query::GenderById(1),
            Query::PersonBySignature,
            Query::PersonByDocument,
        ]
    );
    let e = written.unwrap();
    assert_eq!(e.first_name, "Idesoft");
    assert_eq!(e.last_name, "Systems");
    assert_eq!(e.document_number, "ID3SOFT");
    assert_eq!(e.signature, "87ca18b2b4e8fa897cc0bfdf04c58417");
    assert_eq!(r.unwrap(), 1);
}

#[test]
fn a_failing_store_is_reported_as_unknown() {
    let step = PersonService.create(&person("Idesoft", "Systems", "ID3SOFT", 1, 1));
    let (_, _, r) = drive(step, &[Answer::Found, Answer::Failed], Written::Failed);
    assert!(matches!(r, Err(DomainFailure::Unknown)));
    let step = PersonService.create(&person("Idesoft", "Systems", "ID3SOFT", 1, 1));
    let answers = [Answer::Found, Answer::Found, Answer::Missing, Answer::Missing];
    let (_, written, r) = drive(step, &answers, Written::Failed);
    assert!(written.is_some());
    assert!(matches!(r, Err(DomainFailure::Unknown)));
}

#[test]
fn a_write_before_the_guards_is_refused() {
    match PersonService.create(&person("Idesoft", "Systems", "ID3SOFT", 1, 1)) {
        Step::Ask(p, _) => assert!(matches!(p.written(Written::Stored(4)), Err(DomainFailure::Unknown))),
        _ => panic!("expected a lookup"),
    }
}

#[test]
fn it_validate_required_person_fields_to_update() {
    let step = PersonService.update_person(&person_update(1, "", "", "", 1, 1));
    let (asked, _, r) = drive::<PersonEnt>(step, &[], Written::Failed);
    assert!(asked.is_empty());
    assert_eq!(violation_fields(&r.unwrap_err()).len(), 3);
}

#[test]
fn update_it_not_accept_invalid_person_id() {
    let step = PersonService.update_person(&person_update(10, "Idesoft", "Systems", "ID3SOFT", 1, 1));
    let (asked, _, r) = drive(step, &[Answer::Missing], Written::Failed);
    assert_eq!(asked, vec![Query::PersonById(10)]);
    assert_eq!(
        invalid_field(&r.unwrap_err()),
        ("person_id".to_string(), "person does not exist".to_string())
    );
}

#[test]
fn update_it_not_accept_invalid_document_type() {
    let step = PersonService.update_person(&person_update(1, "Idesoft", "Systems", "ID3SOFT", 10, 1));
    let (asked, written, r) = drive(step, &[Answer::Found, Answer::Missing], Written::Stored(1));
    assert_eq!(asked, vec![Query::PersonById(1), Query::DocumentTypeById(10)]);
    assert!(written.is_none());
    assert_eq!(
        invalid_field(&r.unwrap_err()),
        ("document_type_id".to_string(), "document type does not exist".to_string())
    );
}

#[test]
fn update_it_not_accept_invalid_gender() {
    let step = PersonService.update_person(&person_update(1, "Idesoft", "Systems", "ID3SOFT", 1, 20));
    let (_, _, r) = drive(step, &[Answer::Found, Answer::Found, Answer::Missing], Written::Stored(1));
    assert_eq!(
        invalid_field(&r.unwrap_err()),
        ("gender_id".to_string(), "gender does not exist".to_string())
    );
}

#[test]
fn update_checks_uniqueness_against_other_people_only() {
    let step = PersonService.update_person(&person_update(1, "iDesoft", "sYstEms", "ID3SOFT", 1, 1));
    let answers = [Answer::Found, Answer::Found, Answer::Found, Answer::Missing, Answer::Missing];
    let (asked, written, r) = drive(step, &answers, Written::Stored(1));
    assert_eq!(
        asked,
        vec![
            Query::PersonById(1),
            Query::DocumentTypeById(1),
            Query::GenderById(1),
            Query::OtherPersonBySignature(1),
            Query::OtherPersonByDocument(1),
        ]
    );
    assert_eq!(written.unwrap().person_id, Some(1));
    assert_eq!(r.unwrap(), 1);
}

#[test]
fn it_not_accept_duplicate_person_signature() {
    let step = PersonService.update_person(&person_update(2, "iDesoft", "sYstEms", "ID3SOFT", 1, 1));
    let answers = [Answer::Found, Answer::Found, Answer::Found, Answer::Found];
    let (_, written, r) = drive(step, &answers, Written::Stored(2));
    assert!(written.is_none());
    assert!(is_conflict(&r.unwrap_err()));
}

#[test]
fn it_not_accept_duplicate_document() {
    let step = PersonService.update_person(&person_update(1, "Idesoft", "Systems", "0001", 2, 1));
    let answers = [Answer::Found, Answer::Found, Answer::Found, Answer::Missing, Answer::Found];
    let (_, written, r) = drive(step, &answers, Written::Stored(1));
    assert!(written.is_none());
    assert!(is_conflict(&r.unwrap_err()));
}

#[test]
fn it_accept_and_update_valid_person() {
    let step = PersonService.update_person(&person_update(1, "Idesoft", "Systems Tech", "0001", 2, 2));
    let answers = [Answer::Found; 5];
    let answers = [answers[0], answers[1], answers[2], Answer::Missing, Answer::Missing];
    let (_, written, r) = drive(step, &answers, Written::Stored(1));
    let e = written.unwrap();
    assert_eq!(e.document_number, "0001");
    assert_eq!(e.document_type_id, 2);
    assert_eq!(e.gender_id, 2);
    assert_eq!(e.signature, "548696ad63cc5a7b6c86e4c1b39c89b6");
    assert_eq!(r.unwrap(), 1);
}

fn details() -> PersonDetailsSelector {
    PersonDetailsSelector {
        person_id: 1,
        first_name: "Idesoft".to_string(),
        last_name: "Systems".to_string(),
        document_number: "ID3SOFT".to_string(),
        document_type_id: 1,
        document_type_name: "P.IVA".to_string(),
        gender_id: 1,
        gender_name: "Female".to_string(),
        signature: "87ca18b2b4e8fa897cc0bfdf04c58417".to_string(),
    }
}

#[test]
fn detail_it_not_accept_invalid_person_id() {
    match PersonService.find_person_details(Ok(None)) {
        Err(DomainFailure::NotFound(m)) => assert_eq!(m, "person does not exist"),
        _ => panic!("expected not found"),
    }
    assert!(matches!(
        PersonService.find_person_details(Err(SelectRepoFailure::Unknown)),
        Err(DomainFailure::Unknown)
    ));
}

#[test]
fn it_retrieve_person_details() {
    let d = PersonService.find_person_details(Ok(Some(details()))).unwrap();
    assert_eq!(d.person_id, 1);
    assert_eq!(d.document_type_name, "P.IVA");
    assert_eq!(d.gender_name, "Female");
}

fn gender(name: &str, summary: Option<&str>) -> CreatePersonGenderCommand {
    CreatePersonGenderCommand { name: name.to_string(), summary: summary.map(|s| s.to_string()) }
}

#[test]
fn it_validate_required_person_gender_fields() {
    let step = PersonGenderService.create(&gender("", None));
    let (_, _, r) = drive::<AddPersonGender>(step, &[], Written::Failed);
    assert_eq!(violation_fields(&r.unwrap_err()), vec![("name".to_string(), "length".to_string())]);
}

#[test]
fn it_not_accept_duplicate_person_gender() {
    let step = PersonGenderService.create(&gender("Female", None));
    let (asked, written, r) = drive(step, &[Answer::Found], Written::Stored(2));
    assert_eq!(asked, vec![Query::GenderBySignature]);
    assert!(written.is_none());
    match r.unwrap_err() {
        DomainFailure::Conflict(m) => assert_eq!(m, "gender with signature already exists"),
        _ => panic!("expected a conflict"),
    }
}

#[test]
fn it_accept_and_save_valid_person_gender() {
    let step = PersonGenderService.create(&gender(" female ", Some("Female Description")));
    let (_, written, r) = drive(step, &[Answer::Missing], Written::Stored(1));
    let e = written.unwrap();
    assert_eq!(
        e,
        AddPersonGender {
            name: "Female".to_string(),
            summary: Some("Female Description".to_string()),
            signature: "273b9ae535de53399c86a9b83148a8ed".to_string(),
        }
    );
    assert_eq!(r.unwrap(), 1);
}

fn gender_update(id: i32, name: &str, summary: Option<&str>) -> UpdatePersonGenderCommand {
    UpdatePersonGenderCommand {
        person_gender_id: id,
        name: name.to_string(),
        summary: summary.map(|s| s.to_string()),
    }
}

#[test]
fn it_validate_required_person_gender_fields_to_update() {
    let step = PersonGenderService.update_person_gender(&gender_update(1, "", None));
    let (_, _, r) = drive::<UpdatePersonGender>(step, &[], Written::Failed);
    assert_eq!(violation_fields(&r.unwrap_err()), vec![("name".to_string(), "length".to_string())]);
}

#[test]
fn it_not_accept_duplicate_gender_signature() {
    let step = PersonGenderService.update_person_gender(&gender_update(2, "Female", None));
    let (asked, written, r) = drive(step, &[Answer::Found, Answer::Found], Written::Stored(2));
    assert_eq!(asked, vec![Query::GenderById(2), Query::OtherGenderBySignature(2)]);
    assert!(written.is_none());
    assert!(is_conflict(&r.unwrap_err()));
}

#[test]
fn update_gender_requires_the_gender_to_exist() {
    let step = PersonGenderService.update_person_gender(&gender_update(9, "Female", None));
    let (_, _, r) = drive(step, &[Answer::Missing], Written::Stored(9));
    assert_eq!(
        invalid_field(&r.unwrap_err()),
        ("person_gender_id".to_string(), "gender does not exist".to_string())
    );
}

#[test]
fn it_accept_and_update_valid_person_gender() {
    let step = PersonGenderService.update_person_gender(&gender_update(1, "Masculino", Some("Masculino")));
    let (_, written, r) = drive(step, &[Answer::Found, Answer::Missing], Written::Stored(1));
    assert_eq!(
        written.unwrap(),
        UpdatePersonGender {
            person_gender_id: 1,
            name: "Masculino".to_string(),
            summary: Some("Masculino".to_string()),
            signature: "b699db5848174056f1b149a8ebe01201".to_string(),
        }
    );
    assert_eq!(r.unwrap(), 1);
}

#[test]
fn it_accept_and_update_no_required_fields() {
    let step = PersonGenderService.update_person_gender(&gender_update(1, "Male", Some("Masculino")));
    let (_, written, _) = drive(step, &[Answer::Found, Answer::Missing], Written::Stored(1));
    let e = written.unwrap();
    assert_eq!(e.name, "Male");
    assert_eq!(e.signature, "07cf4f8f5d8b76282917320715dda2ad");
}

fn product(name: &str, family: i32) -> CreateProductCommand {
    CreateProductCommand {
        name: name.to_string(),
        summary: Some("iPhone 100".to_string()),
        family_id: family,
        purchasable: true,
        saleable: true,
        saleable_without_stock: false,
    }
}

#[test]
fn it_validate_required_product_fields() {
    let step = ProductService.create_product(&product("", 1));
    let (_, _, r) = drive::<AddProduct>(step, &[], Written::Failed);
    assert_eq!(violation_fields(&r.unwrap_err()), vec![("name".to_string(), "length".to_string())]);
}

#[test]
fn it_not_accept_invalid_family_type() {
    let step = ProductService.create_product(&product("iPhone 100", 1));
    let (asked, _, r) = drive(step, &[Answer::Missing], Written::Failed);
    assert_eq!(asked, vec![Query::FamilyById(1)]);
    assert_eq!(
        invalid_field(&r.unwrap_err()),
        ("product_family_id".to_string(), "product family does not exist".to_string())
    );
}

#[test]
fn it_not_accept_duplicate_product() {
    let step = ProductService.create_product(&product("iPhone X", 1));
    let (_, written, r) = drive(step, &[Answer::Found, Answer::Found], Written::Stored(2));
    assert!(written.is_none());
    assert!(is_conflict(&r.unwrap_err()));
}

#[test]
fn it_accepts_and_save_valid_product() {
    let step = ProductService.create_product(&product("iPhone X", 1));
    let (_, written, r) = drive(step, &[Answer::Found, Answer::Missing], Written::Stored(1));
    assert_eq!(
        written.unwrap(),
        AddProduct {
            name: "iPhone X".to_string(),
            summary: Some("iPhone 100".to_string()),
            family_id: 1,
            purchasable: true,
            saleable: true,
            saleable_without_stock: false,
            signature: "882a0465d260983ada874710ef46aaef".to_string(),
        }
    );
    assert_eq!(r.unwrap(), 1);
}
