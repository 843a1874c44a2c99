//! Shapes exchanged with the boundary: request parameters and the
//! projections returned to it.
use vstd::prelude::*;

use crate::selectors::{full_name_of, PersonDetailsSelector, PersonFullName, PersonPageSelector};

verus! {

/// Parameters of a person's creation.
#[derive(Debug, Clone)]
pub struct CreatePersonParams {
    pub first_name: String,
    pub last_name: String,
    pub document_number: String,
    pub document_type_id: i32,
    pub gender_id: i32,
}

/// Parameters of a person's update; the id comes with the request path.
#[derive(Debug, Clone)]
pub struct UpdatePersonParams {
    pub first_name: String,
    pub last_name: String,
    pub document_number: String,
    pub document_type_id: i32,
    pub gender_id: i32,
}

/// Parameters of a gender's creation.
#[derive(Debug, Clone)]
pub struct CreatePersonGenderParams {
    pub name: String,
    pub summary: Option<String>,
}

/// Parameters of a gender's update; the id comes with the request path.
#[derive(Debug, Clone)]
pub struct UpdatePersonGenderParams {
    pub name: String,
    pub summary: Option<String>,
}

/// Credentials given to authenticate.
#[derive(Debug, Clone)]
pub struct UsernamePasswordAuthenticationParams {
    pub username: String,
    pub password: String,
}

/// The token handed out on a successful authentication.
#[derive(Debug, Clone)]
pub struct AuthenticationToken {
    pub access_token: String,
    pub token_type: String,
}

/// A person as listed in a page, with its display name.
#[derive(Debug, Clone)]
pub struct PersonPageQuery {
    pub person_id: i32,
    pub first_name: String,
    pub last_name: String,
    pub full_name: String,
    pub document_number: String,
    pub document_type_id: i32,
    pub document_type_name: String,
    pub gender_id: i32,
    pub gender_name: String,
}

/// A person's details, with its display name.
#[derive(Debug, Clone)]
pub struct PersonDetailsQuery {
    pub person_id: i32,
    pub first_name: String,
    pub last_name: String,
    pub full_name: String,
    pub document_number: String,
    pub document_type_id: i32,
    pub document_type_name: String,
    pub gender_id: i32,
    pub gender_name: String,
}

impl PersonPageQuery {
    /// The listed form of a page row: its fields and its display name.
    pub fn from(value: &PersonPageSelector) -> (r: Self)
        ensures
            r.person_id == value.person_id,
            r.first_name == value.first_name,
            r.last_name == value.last_name,
            r.full_name@ == full_name_of(value.first_name@, value.last_name@),
            r.document_number == value.document_number,
            r.document_type_id == value.document_type_id,
            r.document_type_name == value.document_type_name,
            r.gender_id == value.gender_id,
            r.gender_name == value.gender_name,
    {
        PersonPageQuery {
            person_id: value.person_id,
            first_name: value.first_name.clone(),
            last_name: value.last_name.clone(),
            full_name: value.full_name(),
            document_number: value.document_number.clone(),
            document_type_id: value.document_type_id,
            document_type_name: value.document_type_name.clone(),
            gender_id: value.gender_id,
            gender_name: value.gender_name.clone(),
        }
    }
}

impl PersonDetailsQuery {
    /// The returned form of a person's details: its fields and its display name.
    pub fn from(value: &PersonDetailsSelector) -> (r: Self)
        ensures
            r.person_id == value.person_id,
            r.first_name == value.first_name,
            r.last_name == value.last_name,
            r.full_name@ == full_name_of(value.first_name@, value.last_name@),
            r.document_number == value.document_number,
            r.document_type_id == value.document_type_id,
            r.document_type_name == value.document_type_name,
            r.gender_id == value.gender_id,
            r.gender_name == value.gender_name,
    {
        PersonDetailsQuery {
            person_id: value.person_id,
            first_name: value.first_name.clone(),
            last_name: value.last_name.clone(),
            full_name: value.full_name(),
            document_number: value.document_number.clone(),
            document_type_id: value.document_type_id,
            document_type_name: value.document_type_name.clone(),
            gender_id: value.gender_id,
            gender_name: value.gender_name.clone(),
        }
    }
}

} // verus!
