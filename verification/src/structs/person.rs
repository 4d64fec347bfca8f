//! The person, the one record that the service keeps.

use vstd::prelude::*;
use crate::date::{BirthDate, Date};
use crate::identifier::PersonId;
use crate::structs::api::{CreatePersonBody, CreatePersonBodyView};

verus! {

/// A person as it is kept: the identifier is the key of the record.
#[derive(Clone, Debug, PartialEq, Eq)]
pub struct Person {
    pub id: PersonId,
    pub nickname: String,
    pub name: String,
    pub birth_date: BirthDate,
    pub stacks: Option<Vec<String>>,
}

/// The mathematical value of a person. A person without a list of stacks is
/// not a person with an empty list.
pub ghost struct PersonView {
    pub id: PersonId,
    pub nickname: Seq<char>,
    pub name: Seq<char>,
    pub birth_date: Date,
    pub stacks: Option<Seq<Seq<char>>>,
}

impl View for Person {
    type V = PersonView;

    open spec fn view(&self) -> PersonView {
        PersonView {
            id: self.id,
            nickname: self.nickname@,
            name: self.name@,
            birth_date: self.birth_date@,
            stacks: self.stacks.deep_view(),
        }
    }
}

/// The person that a body and an identifier make: the fields of the body
/// under that identifier.
pub open spec fn person_of(body: CreatePersonBodyView, id: PersonId) -> PersonView {
    PersonView {
        id,
        nickname: body.nickname,
        name: body.name,
        birth_date: body.birth_date,
        stacks: body.stacks,
    }
}

impl Person {
    /// The person that a body and an identifier make.
    pub fn new(body: CreatePersonBody, id: PersonId) -> (person: Person)
        ensures
            person@ == person_of(body@, id),
    {
        Person {
            id,
            nickname: body.nickname,
            name: body.name,
            birth_date: body.birth_date,
            stacks: body.stacks,
        }
    }
}

/// The views of a list of persons, in order.
pub open spec fn people_view(people: Seq<Person>) -> Seq<PersonView> {
    Seq::new(people.len(), |i: int| people[i]@)
}

} // verus!
