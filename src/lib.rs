//! Entity lifecycle core of a business registry: canonicalisation, content
//! signatures, structural validation, offset pagination and the create /
//! update pipelines of people, person genders and products.

pub mod api;
pub mod failure;
pub mod pagination;
pub mod person;
pub mod person_document_type;
pub mod person_gender;
pub mod pipeline;
pub mod product;
pub mod selectors;
pub mod signer;
pub mod text;
pub mod validation;
