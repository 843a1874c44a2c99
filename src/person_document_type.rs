//! Person document types: stored projections and the list use case.
use vstd::prelude::*;

use crate::failure::{DomainFailure, FailureModel, FindManyFailure, SelectRepoFailure};
use crate::pagination::{page_rows, paginate, Page, PaginationQuery};

verus! {

/// A stored document type.
#[derive(Debug, Clone)]
pub struct PersonDocumentTypeSelector {
    pub person_document_type_id: i32,
    pub name: String,
    pub summary: Option<String>,
    pub signature: String,
}

/// A stored document type, as listed in a page.
#[derive(Debug, Clone)]
pub struct PersonDocumentTypePageSelector {
    pub person_document_type_id: i32,
    pub name: String,
    pub summary: Option<String>,
    pub signature: String,
}

/// The use cases on document types.
#[derive(Debug, Clone, Copy)]
pub struct PersonDocumentTypeService;

impl PersonDocumentTypeService {
    /// A page of document types, from the rows that the store found in
    /// descending id order.
    pub fn find_all_person_document_type(
        &self,
        query: &PaginationQuery,
        found: Result<Vec<PersonDocumentTypePageSelector>, SelectRepoFailure>,
    ) -> (r: Result<Page<PersonDocumentTypePageSelector>, FindManyFailure>)
        requires
            query.page >= 1,
            query.page_size >= 1,
        ensures
            found is Err ==> r is Err && r->Err_0@ == FailureModel::Unknown,
            found matches Ok(rows) ==> r matches Ok(p) && p.data@ == page_rows(rows@, *query) && p.total
                == rows@.len() && p.page == (if rows@.len() == 0 { 0 } else { query.page }) && p.page_size
                == query.page_size,
    {
        match found {
            Err(_) => Err(DomainFailure::Unknown),
            Ok(rows) => Ok(paginate(rows, query)),
        }
    }

    /// A page of the document types that match a criteria, from the matching
    /// rows that the store found in descending id order.
    pub fn find_person_document_type_by_criteria(
        &self,
        query: &PaginationQuery,
        found: Result<Vec<PersonDocumentTypePageSelector>, SelectRepoFailure>,
    ) -> (r: Result<Page<PersonDocumentTypePageSelector>, FindManyFailure>)
        requires
            query.page >= 1,
            query.page_size >= 1,
        ensures
            found is Err ==> r is Err && r->Err_0@ == FailureModel::Unknown,
            found matches Ok(rows) ==> r matches Ok(p) && p.data@ == page_rows(rows@, *query) && p.total
                == rows@.len() && p.page == (if rows@.len() == 0 { 0 } else { query.page }) && p.page_size
                == query.page_size,
    {
        match found {
            Err(_) => Err(DomainFailure::Unknown),
            Ok(rows) => Ok(paginate(rows, query)),
        }
    }
}

} // verus!
