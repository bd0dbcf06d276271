//! The entities the application keeps.

use vstd::prelude::*;

verus! {

/// The key of an entity.
pub type ID = u64;

/// A moment in universal time: the seconds since the start of 1970, and
/// the nanoseconds into the second.
#[derive(Clone, Copy, Debug, PartialEq, Eq, Structural)]
pub struct Moment {
    pub seconds: i64,
    pub nanos: u32,
}

impl Moment {
    /// The start of 1970.
    pub open spec fn epoch() -> Moment {
        Moment { seconds: 0, nanos: 0 }
    }
}

impl Default for Moment {
    fn default() -> (moment: Self)
        ensures
            moment == Moment::epoch(),
    {
        Moment { seconds: 0, nanos: 0 }
    }
}

/// A person.
#[derive(Debug)]
pub struct Person {
    pub id: ID,
    pub first_name: String,
    pub last_name: String,
    pub birth_date: Moment,
    pub gender: String,
    pub height: i16,
}

/// The mathematical value of a `Person`.
pub ghost struct PersonView {
    pub id: ID,
    pub first_name: Seq<char>,
    pub last_name: Seq<char>,
    pub birth_date: Moment,
    pub gender: Seq<char>,
    pub height: i16,
}

impl View for Person {
    type V = PersonView;

    open spec fn view(&self) -> PersonView {
        PersonView {
            id: self.id,
            first_name: self.first_name@,
            last_name: self.last_name@,
            birth_date: self.birth_date,
            gender: self.gender@,
            height: self.height,
        }
    }
}

impl Person {
    /// A person with the given particulars.
    pub fn new(
        id: ID,
        first_name: String,
        last_name: String,
        birth_date: Moment,
        gender: String,
        height: i16,
    ) -> (person: Self)
        ensures
            person@ == (PersonView {
                id,
                first_name: first_name@,
                last_name: last_name@,
                birth_date,
                gender: gender@,
                height,
            }),
    {
        Self { id, first_name, last_name, birth_date, gender, height }
    }
}

impl Default for Person {
    /// A person of whom nothing is known.
    fn default() -> (person: Self)
        ensures
            person@.id == 0,
            person@.first_name == Seq::<char>::empty(),
            person@.last_name == Seq::<char>::empty(),
            person@.birth_date == Moment::epoch(),
            person@.gender == Seq::<char>::empty(),
            person@.height == 0,
    {
        Self {
            id: 0,
            first_name: String::new(),
            last_name: String::new(),
            birth_date: Moment::default(),
            gender: String::new(),
            height: 0,
        }
    }
}

/// An exercise.
#[derive(Debug)]
pub struct Exercise {
    pub id: ID,
    pub name: String,
    pub description: String,
}

/// The mathematical value of an `Exercise`.
pub ghost struct ExerciseView {
    pub id: ID,
    pub name: Seq<char>,
    pub description: Seq<char>,
}

impl View for Exercise {
    type V = ExerciseView;

    open spec fn view(&self) -> ExerciseView {
        ExerciseView { id: self.id, name: self.name@, description: self.description@ }
    }
}

impl Exercise {
    /// An exercise with the given key, name and description.
    pub fn new(id: ID, name: String, description: String) -> (exercise: Self)
        ensures
            exercise@ == (ExerciseView { id, name: name@, description: description@ }),
    {
        Self { id, name, description }
    }
}

impl Default for Exercise {
    fn default() -> (exercise: Self)
        ensures
            exercise@ == (ExerciseView { id: 0, name: Seq::empty(), description: Seq::empty() }),
    {
        Self { id: 0, name: String::new(), description: String::new() }
    }
}

impl Clone for Person {
    fn clone(&self) -> (copy: Self)
        ensures
            copy@ == self@,
    {
        Self {
            id: self.id,
            first_name: self.first_name.clone(),
            last_name: self.last_name.clone(),
            birth_date: self.birth_date,
            gender: self.gender.clone(),
            height: self.height,
        }
    }
}

impl Clone for Exercise {
    fn clone(&self) -> (copy: Self)
        ensures
            copy@ == self@,
    {
        Self { id: self.id, name: self.name.clone(), description: self.description.clone() }
    }
}

} // verus!
