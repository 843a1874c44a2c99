//! Products: the create command, its signature and the create use case.
use vstd::prelude::*;

use crate::failure::{violations_view, DomainFailure, FailureModel, FieldViolation};
use crate::person_gender::copy_summary;
use crate::pipeline::{begins, carried, fails_with, Guard, Pipeline, Query, Rejection, Step};
use crate::signer::{name_signature, sign_name};
use crate::validation::{check_length, length_violation};

verus! {

/// Command to register a product.
#[derive(Debug, Clone)]
pub struct CreateProductCommand {
    pub name: String,
    pub summary: Option<String>,
    pub family_id: i32,
    pub purchasable: bool,
    pub saleable: bool,
    pub saleable_without_stock: bool,
}

/// A product to be stored.
#[derive(Debug, Clone, PartialEq)]
pub struct AddProduct {
    pub name: String,
    pub summary: Option<String>,
    pub family_id: i32,
    pub purchasable: bool,
    pub saleable: bool,
    pub saleable_without_stock: bool,
    pub signature: String,
}

/// The signature of a product name.
pub struct ProductSignature {
    signature: String,
}

impl View for ProductSignature {
    type V = Seq<char>;

    closed spec fn view(&self) -> Seq<char> {
        self.signature@
    }
}

impl ProductSignature {
    /// Signs a product name: the digest of its trimmed, lower-case form.
    pub fn new(name: &str) -> (r: Self)
        ensures
            r@ == name_signature(name@),
    {
        ProductSignature { signature: sign_name(name) }
    }

    pub fn get(self) -> (r: String)
        ensures
            r@ == self@,
    {
        self.signature
    }
}

/// The structural violations of a product command.
pub open spec fn product_violations(name: Seq<char>) -> Seq<(Seq<char>, Seq<char>)> {
    length_violation("name"@, name)
}

impl CreateProductCommand {
    /// Checks every length rule and reports all the fields that break one.
    pub fn validate(&self) -> (r: Result<(), Vec<FieldViolation>>)
        ensures
            r is Ok <==> product_violations(self.name@).len() == 0,
            r matches Err(v) ==> violations_view(v@) == product_violations(self.name@),
    {
        let mut v: Vec<FieldViolation> = Vec::new();
        assert(violations_view(v@) =~= Seq::empty());
        check_length("name", &self.name, &mut v);
        assert(violations_view(v@) =~= product_violations(self.name@));
        if v.len() == 0 {
            Ok(())
        } else {
            Err(v)
        }
    }
}

/// The guards of a product's creation: its family exists and no product
/// holds its signature.
pub open spec fn create_product_guards(family_id: i32) -> Seq<Guard> {
    seq![
        Guard { query: Query::FamilyById(family_id), rejection: Rejection::MissingFamily },
        Guard { query: Query::ProductBySignature, rejection: Rejection::ProductSignatureTaken },
    ]
}

/// The use cases on products.
#[derive(Debug, Clone, Copy)]
pub struct ProductService;

impl ProductService {
    /// Starts the creation of a product: validation, signature, then the
    /// guards of [`create_product_guards`] and the save. The name is stored
    /// as given.
    pub fn create_product(&self, command: &CreateProductCommand) -> (r: Step<AddProduct>)
        ensures
            product_violations(command.name@).len() > 0 ==> fails_with(
                r,
                FailureModel::InvalidInput(product_violations(command.name@)),
            ),
            product_violations(command.name@).len() == 0 ==> begins(
                r,
                carried(r),
                create_product_guards(command.family_id),
            ) && carried(r).name == command.name && carried(r).summary == command.summary
                && carried(r).family_id == command.family_id && carried(r).purchasable == command.purchasable
                && carried(r).saleable == command.saleable && carried(r).saleable_without_stock
                == command.saleable_without_stock && carried(r).signature@ == name_signature(command.name@),
    {
        match command.validate() {
            Err(v) => Step::Finished(Err(DomainFailure::InvalidInput(v))),
            Ok(()) => {
                let product_signature = ProductSignature::new(command.name.as_str()).get();
                let event = AddProduct {
                    name: command.name.clone(),
                    summary: copy_summary(&command.summary),
                    family_id: command.family_id,
                    purchasable: command.purchasable,
                    saleable: command.saleable,
                    saleable_without_stock: command.saleable_without_stock,
                    signature: product_signature,
                };
                let mut guards: Vec<Guard> = Vec::new();
                guards.push(Guard { query: Query::FamilyById(command.family_id), rejection: Rejection::MissingFamily });
                guards.push(Guard { query: Query::ProductBySignature, rejection: Rejection::ProductSignatureTaken });
                assert(guards@ =~= create_product_guards(command.family_id));
                Pipeline::start(event, guards)
            },
        }
    }
}

} // verus!
