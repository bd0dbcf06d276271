//! What the answers of the server do to the cache.

use vstd::prelude::*;
use crate::config::{AccountConfig, KeyMap};
use crate::entity::{Exercise, ExerciseView, ID, Person};
use crate::model::{Db, DbView, Table};
use crate::rest::{RestClientError, ServerOperationStatus};

verus! {

/// The outcome of a request.
pub type Result<T> = std::result::Result<T, RestClientError>;

/// What the server answered to a piece of work.
pub enum ControllerReply {
    /// To `LoadExercises`: the exercises.
    Loaded(Result<Vec<Exercise>>),
    /// To `InsertExercise`: the exercise as the server stored it.
    Inserted(Result<Exercise>),
    /// To `UpdateExercise` of the given exercise.
    Updated(Exercise, Result<ServerOperationStatus>),
    /// To `RemoveExercise` of the exercise with the given key.
    Removed(ID, Result<ServerOperationStatus>),
}

/// The kinds of reply.
#[derive(Clone, Copy, Debug, PartialEq, Eq, Structural)]
pub enum ReplyKind {
    Loaded,
    Inserted,
    Updated,
    Removed,
}

impl ControllerReply {
    /// The kind of the reply.
    pub open spec fn spec_kind(&self) -> ReplyKind {
        match self {
            ControllerReply::Loaded(_) => ReplyKind::Loaded,
            ControllerReply::Inserted(_) => ReplyKind::Inserted,
            ControllerReply::Updated(_, _) => ReplyKind::Updated,
            ControllerReply::Removed(_, _) => ReplyKind::Removed,
        }
    }

    /// The kind of the reply.
    pub fn kind(&self) -> (kind: ReplyKind)
        ensures
            kind == self.spec_kind(),
    {
        match self {
            ControllerReply::Loaded(_) => ReplyKind::Loaded,
            ControllerReply::Inserted(_) => ReplyKind::Inserted,
            ControllerReply::Updated(_, _) => ReplyKind::Updated,
            ControllerReply::Removed(_, _) => ReplyKind::Removed,
        }
    }

    /// The error of the reply, if the request failed.
    pub open spec fn failure(&self) -> Option<RestClientError> {
        match self {
            ControllerReply::Loaded(Err(error)) => Some(*error),
            ControllerReply::Inserted(Err(error)) => Some(*error),
            ControllerReply::Updated(_, Err(error)) => Some(*error),
            ControllerReply::Removed(_, Err(error)) => Some(*error),
            _ => None,
        }
    }
}

/// What a reply does to the cache: what was fetched or stored is kept,
/// what was replaced is replaced if the cache holds it, what was deleted is
/// dropped. A failure changes nothing, but that after a failure to fetch
/// all the exercises the cache holds none.
pub open spec fn replied_db(db: DbView, reply: ControllerReply) -> DbView {
    match reply {
        ControllerReply::Loaded(Ok(data)) => DbView {
            exercises: with_all(db.exercises, exercise_views(data@), data@.len() as int),
            ..db
        },
        ControllerReply::Loaded(Err(_)) => DbView { exercises: Map::empty(), ..db },
        ControllerReply::Inserted(Ok(inserted)) => DbView { exercises: db.exercises.insert(inserted.id, inserted@), ..db },
        ControllerReply::Updated(data, Ok(_)) => if db.exercises.contains_key(data.id) {
            DbView { exercises: db.exercises.insert(data.id, data@), ..db }
        } else {
            db
        },
        ControllerReply::Removed(id, Ok(_)) => DbView { exercises: db.exercises.remove(id), ..db },
        _ => db,
    }
}

/// The cache, the keys and the account, with the rules that keep the
/// cache in line with the server.
pub struct Controller {
    db: Db,
    exercises: ControllerExercises,
    person: ControllerPerson,
    key_map: KeyMap,
    account: AccountConfig,
}

/// The mathematical value of a `Controller`.
pub ghost struct ControllerView {
    /// The cache.
    pub db: DbView,
    /// The keys of the application.
    pub key_map: KeyMap,
    /// The account of the user.
    pub account: AccountConfig,
}

impl View for Controller {
    type V = ControllerView;

    closed spec fn view(&self) -> ControllerView {
        ControllerView { db: self.db@, key_map: self.key_map, account: self.account }
    }
}

impl Controller {
    /// A controller with an empty cache.
    pub fn new(account: AccountConfig, key_map: KeyMap) -> (controller: Self)
        ensures
            controller@ == (ControllerView {
                db: DbView { exercises: Map::empty(), persons: Map::empty() },
                key_map,
                account,
            }),
    {
        Self { db: Db::default(), exercises: ControllerExercises {}, person: ControllerPerson {}, account, key_map }
    }

    /// The account of the user.
    pub fn account(&self) -> (account: &AccountConfig)
        ensures
            *account == self@.account,
    {
        &self.account
    }

    /// The keys of the application.
    pub fn key_map(&self) -> (keys: &KeyMap)
        ensures
            *keys == self@.key_map,
    {
        &self.key_map
    }

    /// The cache.
    pub fn db(&self) -> (db: &Db)
        ensures
            db@ == self@.db,
    {
        &self.db
    }

    /// The cache, to change it.
    pub fn db_mut(&mut self) -> (db: &mut Db)
        ensures
            db@ == old(self)@.db,
            final(self)@ == (ControllerView { db: final(db)@, ..old(self)@ }),
    {
        &mut self.db
    }

    /// Takes in what the server answered to a piece of work, and says
    /// what the work came to.
    pub fn take(&mut self, reply: ControllerReply) -> (outcome: Result<()>)
        ensures
            final(self)@ == (ControllerView { db: replied_db(old(self)@.db, reply), ..old(self)@ }),
            match reply.failure() {
                Some(error) => outcome == Err::<(), RestClientError>(error),
                None => outcome is Ok,
            },
    {
        match reply {
            ControllerReply::Loaded(fetched) => self.exercises.load_all(&mut self.db, fetched),
            ControllerReply::Inserted(fetched) => self.exercises.insert(&mut self.db, fetched),
            ControllerReply::Updated(data, fetched) => self.exercises.update(&mut self.db, data, fetched),
            ControllerReply::Removed(id, fetched) => self.exercises.remove_exercise(&mut self.db, id, fetched),
        }
    }

    /// The rules for the exercises.
    pub fn exercises(&self) -> &ControllerExercises {
        &self.exercises
    }

    /// The rules for the persons.
    pub fn person(&self) -> &ControllerPerson {
        &self.person
    }
}

/// The mathematical values of a sequence of exercises.
pub open spec fn exercise_views(exercises: Seq<Exercise>) -> Seq<ExerciseView> {
    exercises.map_values(|e: Exercise| e@)
}

/// The table after the first `n` of `fetched` are put into it, one after
/// the other, each under its `id`: a later one replaces an earlier one with
/// the same `id`.
pub open spec fn with_all(table: Map<ID, ExerciseView>, fetched: Seq<ExerciseView>, n: int) -> Map<ID, ExerciseView>
    decreases n,
{
    if n <= 0 {
        table
    } else {
        with_all(table, fetched, n - 1).insert(fetched[n - 1].id, fetched[n - 1])
    }
}

/// The rules that keep the cache of the exercises in line with the server.
/// Each takes what the server answered and says what the request came to.
pub struct ControllerExercises {}

impl ControllerExercises {
    /// One exercise was asked for: the one fetched is kept; a failure
    /// changes nothing.
    pub fn load_one(&self, db: &mut Db, fetched: Result<Exercise>)
        ensures
            final(db)@ == match fetched {
                Ok(data) => DbView { exercises: old(db)@.exercises.insert(data.id, data@), ..old(db)@ },
                Err(_) => old(db)@,
            },
    {
        match fetched {
            Ok(data) => {
                db.exercises_mut().insert(data);
            },
            Err(_) => {},
        }
    }

    /// All the exercises were asked for: those fetched are kept beside
    /// the ones in the cache; after a failure the cache holds no exercise.
    pub fn load_all(&self, db: &mut Db, fetched: Result<Vec<Exercise>>) -> (outcome: Result<()>)
        ensures
            match fetched {
                Ok(data) => outcome is Ok && final(db)@ == (DbView {
                    exercises: with_all(old(db)@.exercises, exercise_views(data@), data@.len() as int),
                    ..old(db)@
                }),
                Err(err) => outcome == Err::<(), RestClientError>(err) && final(db)@ == (DbView {
                    exercises: Map::empty(),
                    ..old(db)@
                }),
            },
    {
        match fetched {
            Ok(data) => {
                let ghost all = exercise_views(data@);
                let mut data = data;
                let mut rest: Vec<Exercise> = Vec::new();
                // The entities are kept in the order in which they came.
                while data.len() > 0
                    invariant
                        rest@.len() + data@.len() == all.len(),
                        forall|i: int| 0 <= i < data@.len() ==> (#[trigger] data@[i])@ == all[i],
                        forall|i: int| 0 <= i < rest@.len() ==> (#[trigger] rest@[i])@ == all[all.len() - 1 - i],
                    decreases data@.len(),
                {
                    let last = data.pop().unwrap();
                    rest.push(last);
                }
                let ghost mut kept: int = 0;
                while rest.len() > 0
                    invariant
                        0 <= kept <= all.len(),
                        rest@.len() == all.len() - kept,
                        forall|i: int| 0 <= i < rest@.len() ==> (#[trigger] rest@[i])@ == all[all.len() - 1 - i],
                        db@ == (DbView { exercises: with_all(old(db)@.exercises, all, kept), ..old(db)@ }),
                    decreases rest@.len(),
                {
                    let next = rest.pop().unwrap();
                    assert(next@ == all[kept]);
                    db.exercises_mut().insert(next);
                    proof {
                        kept = kept + 1;
                    }
                }
                Ok(())
            },
            Err(err) => {
                db.exercises_mut().clear();
                Err(err)
            },
        }
    }

    /// An exercise was stored: what the server made of it is kept.
    pub fn insert(&self, db: &mut Db, fetched: Result<Exercise>) -> (outcome: Result<()>)
        ensures
            match fetched {
                Ok(inserted) => outcome is Ok && final(db)@ == (DbView {
                    exercises: old(db)@.exercises.insert(inserted.id, inserted@),
                    ..old(db)@
                }),
                Err(err) => outcome == Err::<(), RestClientError>(err) && final(db)@ == old(db)@,
            },
    {
        match fetched {
            Ok(inserted) => {
                db.exercises_mut().insert(inserted);
                Ok(())
            },
            Err(err) => Err(err),
        }
    }

    /// An exercise was replaced: `data` takes the place of the exercise
    /// with its `id`, if the cache holds one.
    pub fn update(&self, db: &mut Db, data: Exercise, fetched: Result<ServerOperationStatus>) -> (outcome: Result<()>)
        ensures
            match fetched {
                Ok(_) => outcome is Ok && final(db)@ == if old(db)@.exercises.contains_key(data.id) {
                    DbView { exercises: old(db)@.exercises.insert(data.id, data@), ..old(db)@ }
                } else {
                    old(db)@
                },
                Err(err) => outcome == Err::<(), RestClientError>(err) && final(db)@ == old(db)@,
            },
    {
        match fetched {
            Ok(_) => {
                db.exercises_mut().update(data);
                Ok(())
            },
            Err(err) => Err(err),
        }
    }

    /// An exercise was deleted: the cache drops it.
    pub fn remove_exercise(&self, db: &mut Db, id: ID, fetched: Result<ServerOperationStatus>) -> (outcome: Result<()>)
        ensures
            match fetched {
                Ok(_) => outcome is Ok && final(db)@ == (DbView {
                    exercises: old(db)@.exercises.remove(id),
                    ..old(db)@
                }),
                Err(err) => outcome == Err::<(), RestClientError>(err) && final(db)@ == old(db)@,
            },
    {
        match fetched {
            Ok(_) => {
                db.exercises_mut().remove(id);
                Ok(())
            },
            Err(err) => Err(err),
        }
    }
}

/// The rules that keep the cache of the persons in line with the server.
/// Each takes what the server answered and says what the request came to.
pub struct ControllerPerson {}

impl ControllerPerson {
    /// One person was asked for: the one fetched is kept; a failure
    /// changes nothing.
    pub fn load_one(&self, db: &mut Db, fetched: Result<Person>)
        ensures
            final(db)@ == match fetched {
                Ok(data) => DbView { persons: old(db)@.persons.insert(data.id, data@), ..old(db)@ },
                Err(_) => old(db)@,
            },
    {
        match fetched {
            Ok(data) => {
                db.persons_mut().insert(data);
            },
            Err(_) => {},
        }
    }

    /// A person was stored: what the server made of it is kept.
    pub fn insert(&self, db: &mut Db, fetched: Result<Person>) -> (outcome: Result<()>)
        ensures
            match fetched {
                Ok(inserted) => outcome is Ok && final(db)@ == (DbView {
                    persons: old(db)@.persons.insert(inserted.id, inserted@),
                    ..old(db)@
                }),
                Err(err) => outcome == Err::<(), RestClientError>(err) && final(db)@ == old(db)@,
            },
    {
        match fetched {
            Ok(inserted) => {
                db.persons_mut().insert(inserted);
                Ok(())
            },
            Err(err) => Err(err),
        }
    }

    /// A person was replaced: `data` takes the place of the person with
    /// its `id`, if the cache holds one.
    pub fn update(&self, db: &mut Db, data: Person, fetched: Result<ServerOperationStatus>) -> (outcome: Result<()>)
        ensures
            match fetched {
                Ok(_) => outcome is Ok && final(db)@ == if old(db)@.persons.contains_key(data.id) {
                    DbView { persons: old(db)@.persons.insert(data.id, data@), ..old(db)@ }
                } else {
                    old(db)@
                },
                Err(err) => outcome == Err::<(), RestClientError>(err) && final(db)@ == old(db)@,
            },
    {
        match fetched {
            Ok(_) => {
                db.persons_mut().update(data);
                Ok(())
            },
            Err(err) => Err(err),
        }
    }

    /// A person was deleted: the cache drops it.
    pub fn remove_person(&self, db: &mut Db, id: ID, fetched: Result<ServerOperationStatus>) -> (outcome: Result<()>)
        ensures
            match fetched {
                Ok(_) => outcome is Ok && final(db)@ == (DbView { persons: old(db)@.persons.remove(id), ..old(db)@ }),
                Err(err) => outcome == Err::<(), RestClientError>(err) && final(db)@ == old(db)@,
            },
    {
        match fetched {
            Ok(_) => {
                db.persons_mut().remove(id);
                Ok(())
            },
            Err(err) => Err(err),
        }
    }
}

} // verus!
