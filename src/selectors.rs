//! Read projections of stored rows, and the display name of a person.
use vstd::prelude::*;

verus! {

/// A stored person, as the store returns it.
#[derive(Debug, Clone)]
pub struct PersonSelector {
    pub person_id: i32,
    pub first_name: String,
    pub last_name: String,
    pub document_number: String,
    pub document_type_id: i32,
    pub gender_id: i32,
    pub signature: String,
}

/// A stored person with the names of its gender and document type.
#[derive(Debug, Clone)]
pub struct PersonDetailsSelector {
    pub person_id: i32,
    pub first_name: String,
    pub last_name: String,
    pub document_number: String,
    pub document_type_id: i32,
    pub document_type_name: String,
    pub gender_id: i32,
    pub gender_name: String,
    pub signature: String,
}

/// A stored person as listed in a page, with the names of its gender and
/// document type.
#[derive(Debug, Clone)]
pub struct PersonPageSelector {
    pub person_id: i32,
    pub first_name: String,
    pub last_name: String,
    pub document_number: String,
    pub document_type_id: i32,
    pub document_type_name: String,
    pub gender_id: i32,
    pub gender_name: String,
    pub signature: String,
}

/// A person row joined with the names of its gender and document type, as a
/// store query yields it.
#[derive(Debug, Clone)]
pub struct PersonAndGenderAndDocument {
    pub person_id: i32,
    pub first_name: String,
    pub last_name: String,
    pub document_number: String,
    pub document_type_id: i32,
    pub document_type_name: String,
    pub gender_id: i32,
    pub gender_name: String,
    pub signature: String,
}

/// A registered user, as the authentication store returns it.
#[derive(Debug, Clone)]
pub struct UserSelector {
    pub user_id: i32,
    pub username: String,
    pub password: String,
}

impl UserSelector {
    pub fn id(&self) -> (r: i32)
        ensures
            r == self.user_id,
    {
        self.user_id
    }

    pub fn username(&self) -> (r: String)
        ensures
            r == self.username,
    {
        self.username.clone()
    }

    pub fn password(&self) -> (r: String)
        ensures
            r == self.password,
    {
        self.password.clone()
    }

    /// Every stored user is enabled.
    pub fn is_enabled(&self) -> (r: bool)
        ensures
            r,
    {
        true
    }
}

/// The display name of a person: first and last name separated by a space.
pub open spec fn full_name_of(first_name: Seq<char>, last_name: Seq<char>) -> Seq<char> {
    first_name + seq![' '] + last_name
}

/// First and last name of a person.
pub struct FullName {
    pub first_name: String,
    pub last_name: String,
}

impl FullName {
    pub fn new(first_name: &String, last_name: &String) -> (r: Self)
        ensures
            r.first_name == *first_name,
            r.last_name == *last_name,
    {
        FullName { first_name: first_name.clone(), last_name: last_name.clone() }
    }

    /// The display name: `"<first> <last>"`.
    pub fn get(&self) -> (r: String)
        ensures
            r@ == full_name_of(self.first_name@, self.last_name@),
    {
        proof {
            reveal_strlit(" ");
        }
        let mut s = self.first_name.clone();
        s.append(" ");
        s.append(self.last_name.as_str());
        s
    }
}

/// A projection that has a person's first and last name.
pub trait PersonFullName {
    spec fn name_parts(&self) -> (Seq<char>, Seq<char>);

    /// The person's display name.
    fn full_name(&self) -> (r: String)
        ensures
            r@ == full_name_of(self.name_parts().0, self.name_parts().1),
    ;
}

impl PersonFullName for PersonDetailsSelector {
    open spec fn name_parts(&self) -> (Seq<char>, Seq<char>) {
        (self.first_name@, self.last_name@)
    }

    fn full_name(&self) -> (r: String) {
        FullName::new(&self.first_name, &self.last_name).get()
    }
}

impl PersonFullName for PersonPageSelector {
    open spec fn name_parts(&self) -> (Seq<char>, Seq<char>) {
        (self.first_name@, self.last_name@)
    }

    fn full_name(&self) -> (r: String) {
        FullName::new(&self.first_name, &self.last_name).get()
    }
}

impl PersonDetailsSelector {
    /// The details projection of a joined row; every field is kept.
    pub fn from(value: PersonAndGenderAndDocument) -> (r: Self)
        ensures
            r.person_id == value.person_id,
            r.first_name == value.first_name,
            r.last_name == value.last_name,
            r.document_number == value.document_number,
            r.document_type_id == value.document_type_id,
            r.document_type_name == value.document_type_name,
            r.gender_id == value.gender_id,
            r.gender_name == value.gender_name,
            r.signature == value.signature,
    {
        PersonDetailsSelector {
            person_id: value.person_id,
            first_name: value.first_name,
            last_name: value.last_name,
            document_number: value.document_number,
            document_type_id: value.document_type_id,
            document_type_name: value.document_type_name,
            gender_id: value.gender_id,
            gender_name: value.gender_name,
            signature: value.signature,
        }
    }
}

impl PersonPageSelector {
    /// The page projection of a joined row; every field is kept.
    pub fn from(value: &PersonAndGenderAndDocument) -> (r: Self)
        ensures
            r.person_id == value.person_id,
            r.first_name == value.first_name,
            r.last_name == value.last_name,
            r.document_number == value.document_number,
            r.document_type_id == value.document_type_id,
            r.document_type_name == value.document_type_name,
            r.gender_id == value.gender_id,
            r.gender_name == value.gender_name,
            r.signature == value.signature,
    {
        PersonPageSelector {
            person_id: value.person_id,
            first_name: value.first_name.clone(),
            last_name: value.last_name.clone(),
            document_number: value.document_number.clone(),
            document_type_id: value.document_type_id,
            document_type_name: value.document_type_name.clone(),
            gender_id: value.gender_id,
            gender_name: value.gender_name.clone(),
            signature: value.signature.clone(),
        }
    }
}

} // verus!
