//! The in-memory cache of the entities, one table for each kind.

use std::collections::HashMap;
use vstd::prelude::*;
use vstd::std_specs::iter::IteratorSpec;
use crate::entity::{Exercise, ExerciseView, ID, Person, PersonView};

verus! {

/// The kinds of table.
#[derive(Debug)]
pub enum TableType {
    Exercises,
}

/// The cache of everything fetched from the server.
pub struct Db {
    exercises: Exercises,
    persons: Persons,
}

/// The mathematical value of a `Db`: the rows of each table by key.
pub ghost struct DbView {
    pub exercises: Map<ID, ExerciseView>,
    pub persons: Map<ID, PersonView>,
}

impl View for Db {
    type V = DbView;

    closed spec fn view(&self) -> DbView {
        DbView { exercises: self.exercises@, persons: self.persons@ }
    }
}

impl Default for Db {
    fn default() -> (db: Self)
        ensures
            db@.exercises == Map::<ID, ExerciseView>::empty(),
            db@.persons == Map::<ID, PersonView>::empty(),
    {
        Self { exercises: Exercises::default(), persons: Persons::default() }
    }
}

impl Db {
    /// The table of exercises.
    pub fn exercises(&self) -> (table: &Exercises)
        ensures
            table@ == self@.exercises,
    {
        &self.exercises
    }

    /// The table of exercises, to change it.
    pub fn exercises_mut(&mut self) -> (table: &mut Exercises)
        ensures
            table@ == old(self)@.exercises,
            final(self)@ == (DbView { exercises: final(table)@, ..old(self)@ }),
    {
        &mut self.exercises
    }

    /// The table of persons.
    pub fn persons(&self) -> (table: &Persons)
        ensures
            table@ == self@.persons,
    {
        &self.persons
    }

    /// The table of persons, to change it.
    pub fn persons_mut(&mut self) -> (table: &mut Persons)
        ensures
            table@ == old(self)@.persons,
            final(self)@ == (DbView { persons: final(table)@, ..old(self)@ }),
    {
        &mut self.persons
    }
}

/// Whether `order` lists exactly the keys in `keys`, in ascending order.
pub open spec fn lists(order: Seq<ID>, keys: Set<ID>) -> bool {
    &&& forall|i: int, j: int| 0 <= i < j < order.len() ==> order[i] < order[j]
    &&& forall|id: ID| order.contains(id) <==> keys.contains(id)
}

/// The keys in `keys` in ascending order: the order in which a table lists
/// its rows.
pub open spec fn ascending(keys: Set<ID>) -> Seq<ID> {
    choose|order: Seq<ID>| lists(order, keys)
}

/// Only one sequence lists a given set of keys in ascending order.
pub proof fn lemma_lists_unique(a: Seq<ID>, b: Seq<ID>, keys: Set<ID>)
    requires
        lists(a, keys),
        lists(b, keys),
    ensures
        a == b,
    decreases a.len(),
{
    if a.len() == 0 {
        if b.len() > 0 {
            assert(b.contains(b[0]));
            assert(keys.contains(b[0]));
            assert(a.contains(b[0]));
        }
        assert(a =~= b);
    } else {
        let top = a.last();
        assert(a.contains(top));
        assert(keys.contains(top));
        assert(b.contains(top));
        assert(b.len() > 0);
        let other = b.last();
        assert(b.contains(other));
        assert(a.contains(other));
        let i = choose|i: int| 0 <= i < a.len() && a[i] == other;
        let j = choose|j: int| 0 <= j < b.len() && b[j] == top;
        assert(other <= top);
        assert(top <= other);
        let rest = keys.remove(top);
        assert forall|id: ID| a.drop_last().contains(id) <==> rest.contains(id) by {
            if a.drop_last().contains(id) {
                let k = choose|k: int| 0 <= k < a.drop_last().len() && a.drop_last()[k] == id;
                assert(a[k] == id);
                assert(a.contains(id));
            }
            if rest.contains(id) {
                assert(a.contains(id));
                let k = choose|k: int| 0 <= k < a.len() && a[k] == id;
                assert(k < a.len() - 1);
                assert(a.drop_last()[k] == id);
            }
        }
        assert forall|id: ID| b.drop_last().contains(id) <==> rest.contains(id) by {
            if b.drop_last().contains(id) {
                let k = choose|k: int| 0 <= k < b.drop_last().len() && b.drop_last()[k] == id;
                assert(b[k] == id);
                assert(b.contains(id));
            }
            if rest.contains(id) {
                assert(b.contains(id));
                let k = choose|k: int| 0 <= k < b.len() && b[k] == id;
                assert(k < b.len() - 1);
                assert(b.drop_last()[k] == id);
            }
        }
        lemma_lists_unique(a.drop_last(), b.drop_last(), rest);
        assert(a =~= a.drop_last().push(top));
        assert(b =~= b.drop_last().push(other));
    }
}

/// A sequence that lists a set of keys in ascending order is the
/// `ascending` order of that set.
pub proof fn lemma_lists_ascending(order: Seq<ID>, keys: Set<ID>)
    requires
        lists(order, keys),
    ensures
        order == ascending(keys),
{
    lemma_lists_unique(order, ascending(keys), keys);
}

/// Puts `id` into an ascending sequence that does not hold it, at its place.
fn place(order: &mut Vec<ID>, id: ID)
    requires
        forall|i: int, j: int| 0 <= i < j < old(order)@.len() ==> old(order)@[i] < old(order)@[j],
        !old(order)@.contains(id),
    ensures
        forall|i: int, j: int| 0 <= i < j < final(order)@.len() ==> final(order)@[i] < final(order)@[j],
        forall|other: ID| final(order)@.contains(other) <==> old(order)@.contains(other) || other == id,
{
    let mut at: usize = 0;
    while at < order.len() && order[at] < id
        invariant
            at <= order@.len(),
            order@ == old(order)@,
            forall|i: int| 0 <= i < at ==> order@[i] < id,
        decreases order@.len() - at,
    {
        at += 1;
    }
    proof {
        if at < order@.len() {
            assert(order@.contains(order@[at as int]));
        }
    }
    order.insert(at, id);
    proof {
        let before = old(order)@;
        let after = order@;
        assert forall|other: ID| after.contains(other) <==> before.contains(other) || other == id by {
            if after.contains(other) {
                let k = choose|k: int| 0 <= k < after.len() && after[k] == other;
                if k < at {
                    assert(before[k] == other);
                } else if k > at {
                    assert(before[k - 1] == other);
                }
            }
            if before.contains(other) {
                let k = choose|k: int| 0 <= k < before.len() && before[k] == other;
                if k < at {
                    assert(after[k] == other);
                } else {
                    assert(after[k + 1] == other);
                }
            }
            if other == id {
                assert(after[at as int] == id);
            }
        }
    }
}

/// The keys of `map` in ascending order.
fn keys_in_order<V>(map: &HashMap<ID, V>) -> (order: Vec<ID>)
    ensures
        lists(order@, map@.dom()),
        order@ == ascending(map@.dom()),
{
    let mut order: Vec<ID> = Vec::new();
    for id in it: map.keys()
        invariant
            forall|i: int, j: int| 0 <= i < j < order@.len() ==> order@[i] < order@[j],
            forall|other: ID| order@.contains(other) <==> exists|k: int| 0 <= k < it.index() && *it.seq()[k] == other,
            it.seq().no_duplicates(),
            it.seq().unref().to_set() == map@.dom(),
            it.index() == it.seq().len() ==> lists(order@, map@.dom()),
    {
        proof {
            if order@.contains(*id) {
                let k = choose|k: int| 0 <= k < it.index() && *it.seq()[k] == *id;
                assert(it.seq()[k] == it.seq()[it.index()]);
            }
        }
        place(&mut order, *id);
        proof {
            let done = it.index() + 1;
            assert forall|other: ID| order@.contains(other) implies exists|k: int| 0 <= k < done && *it.seq()[k] == other by {
                if other == *id {
                    assert(*it.seq()[it.index()] == other);
                }
            }
            let keys = it.seq().unref();
            assert forall|other: ID| done == it.seq().len() implies (order@.contains(other)
                <==> map@.dom().contains(other)) by {
                if order@.contains(other) {
                    let k = choose|k: int| 0 <= k < done && *it.seq()[k] == other;
                    assert(keys[k] == other);
                    assert(keys.contains(other));
                    assert(keys.to_set().contains(other));
                }
                if map@.dom().contains(other) {
                    assert(keys.to_set().contains(other));
                    assert(keys.contains(other));
                    let k = choose|k: int| 0 <= k < keys.len() && keys[k] == other;
                    assert(*it.seq()[k] == other);
                }
            }
        }
    }
    proof {
        lemma_lists_ascending(order@, map@.dom());
    }
    order
}

/// A table of entities, keyed by their `id`.
pub trait Table: View<V = Map<ID, Self::Row>> + Sized {
    /// The entities kept.
    type Item;

    /// The mathematical value of an entity.
    type Row;

    /// The mathematical value of an entity.
    spec fn row(item: &Self::Item) -> Self::Row;

    /// The key under which an entity is kept.
    spec fn key(item: &Self::Item) -> ID;

    /// The entity with the given key, if the table holds one.
    fn get_one(&self, id: ID) -> (found: Option<&Self::Item>)
        ensures
            found is Some <==> self@.contains_key(id),
            found is Some ==> Self::row(found.unwrap()) == self@[id],
    ;

    /// All the entities, in ascending order of the keys they are kept
    /// under.
    fn get_all(&self) -> (all: Vec<&Self::Item>)
        ensures
            lists(ascending(self@.dom()), self@.dom()),
            all@.len() == ascending(self@.dom()).len(),
            forall|i: int| 0 <= i < all@.len() ==> Self::row(#[trigger] all@[i]) == self@[ascending(
                self@.dom(),
            )[i]],
    ;

    /// Keeps the entity under its key, in place of any entity kept there
    /// before, and hands it back.
    fn insert(&mut self, e: Self::Item) -> (kept: Option<&Self::Item>)
        ensures
            final(self)@ == old(self)@.insert(Self::key(&e), Self::row(&e)),
            kept is Some,
            Self::row(kept.unwrap()) == Self::row(&e),
    ;

    /// Drops the entity with the given key, if there is one.
    fn remove(&mut self, id: ID)
        ensures
            final(self)@ == old(self)@.remove(id),
    ;

    /// Drops every entity.
    fn clear(&mut self)
        ensures
            final(self)@ == Map::<ID, Self::Row>::empty(),
    ;

    /// Replaces the entity kept under the key of `e`; a table that holds
    /// no entity under that key is left as it is.
    fn update(&mut self, e: Self::Item)
        ensures
            old(self)@.contains_key(Self::key(&e)) ==> final(self)@ == old(self)@.insert(
                Self::key(&e),
                Self::row(&e),
            ),
            !old(self)@.contains_key(Self::key(&e)) ==> final(self)@ == old(self)@,
    ;

    /// Whether the table holds an entity with the given key.
    fn contains(&self, id: ID) -> (found: bool)
        ensures
            found == self@.contains_key(id),
    ;

    /// The number of entities.
    fn len(&self) -> (n: usize)
        ensures
            n == self@.len(),
    ;
}

/// The table of exercises.
pub struct Exercises {
    exercises: HashMap<ID, Exercise>,
}

impl View for Exercises {
    type V = Map<ID, ExerciseView>;

    closed spec fn view(&self) -> Map<ID, ExerciseView> {
        self.exercises@.map_values(|e: Exercise| e@)
    }
}

impl Exercises {
    /// The keys of the exercises kept, in ascending order.
    pub fn ids(&self) -> (order: Vec<ID>)
        ensures
            lists(order@, self@.dom()),
            order@ == ascending(self@.dom()),
    {
        assert(self@.dom() =~= self.exercises@.dom());
        keys_in_order(&self.exercises)
    }
}

impl Default for Exercises {
    fn default() -> (table: Self)
        ensures
            table@ == Map::<ID, ExerciseView>::empty(),
    {
        let table = Self { exercises: HashMap::new() };
        assert(table@ =~= Map::<ID, ExerciseView>::empty());
        table
    }
}

impl Table for Exercises {
    type Item = Exercise;

    type Row = ExerciseView;

    open spec fn row(item: &Exercise) -> ExerciseView {
        item@
    }

    open spec fn key(item: &Exercise) -> ID {
        item.id
    }

    fn get_one(&self, id: ID) -> (found: Option<&Exercise>) {
        let found = self.exercises.get(&id);
        assert(found is Some <==> self@.contains_key(id));
        assert(found is Some ==> Self::row(found.unwrap()) == self@[id]);
        found
    }

    fn get_all(&self) -> (all: Vec<&Exercise>) {
        let order = self.ids();
        let mut all: Vec<&Exercise> = Vec::new();
        let mut at: usize = 0;
        while at < order.len()
            invariant
                at <= order@.len(),
                order@ == ascending(self@.dom()),
                lists(order@, self@.dom()),
                all@.len() == at,
                forall|i: int| 0 <= i < at ==> (#[trigger] all@[i])@ == self@[order@[i]],
            decreases order@.len() - at,
        {
            let id = order[at];
            assert(order@.contains(id));
            let found = self.exercises.get(&id);
            all.push(found.unwrap());
            at += 1;
        }
        assert forall|i: int| 0 <= i < all@.len() implies Self::row(#[trigger] all@[i]) == self@[ascending(
            self@.dom(),
        )[i]] by {
            assert(all@[i]@ == self@[order@[i]]);
        }
        all
    }

    fn insert(&mut self, e: Exercise) -> (kept: Option<&Exercise>) {
        let id = e.id;
        self.exercises.insert(id, e);
        assert(self@ =~= old(self)@.insert(Self::key(&e), Self::row(&e)));
        let kept = self.exercises.get(&id);
        assert(kept is Some && Self::row(kept.unwrap()) == Self::row(&e));
        kept
    }

    fn remove(&mut self, id: ID) {
        self.exercises.remove(&id);
        assert(self@ =~= old(self)@.remove(id));
    }

    fn clear(&mut self) {
        self.exercises.clear();
        assert(self@ =~= Map::<ID, ExerciseView>::empty());
    }

    fn update(&mut self, e: Exercise) {
        if self.exercises.contains_key(&e.id) {
            self.exercises.insert(e.id, e);
            assert(self@ =~= old(self)@.insert(Self::key(&e), Self::row(&e)));
        } else {
            assert(!old(self)@.contains_key(Self::key(&e)));
        }
    }

    fn contains(&self, id: ID) -> (found: bool) {
        assert(self@.contains_key(id) == self.exercises@.contains_key(id));
        self.exercises.contains_key(&id)
    }

    fn len(&self) -> (n: usize) {
        assert(self@.dom() =~= self.exercises@.dom());
        self.exercises.len()
    }
}

/// The table of persons.
pub struct Persons {
    persons: HashMap<ID, Person>,
}

impl View for Persons {
    type V = Map<ID, PersonView>;

    closed spec fn view(&self) -> Map<ID, PersonView> {
        self.persons@.map_values(|p: Person| p@)
    }
}

impl Persons {
    /// The keys of the persons kept, in ascending order.
    pub fn ids(&self) -> (order: Vec<ID>)
        ensures
            lists(order@, self@.dom()),
            order@ == ascending(self@.dom()),
    {
        assert(self@.dom() =~= self.persons@.dom());
        keys_in_order(&self.persons)
    }
}

impl Default for Persons {
    fn default() -> (table: Self)
        ensures
            table@ == Map::<ID, PersonView>::empty(),
    {
        let table = Self { persons: HashMap::new() };
        assert(table@ =~= Map::<ID, PersonView>::empty());
        table
    }
}

impl Table for Persons {
    type Item = Person;

    type Row = PersonView;

    open spec fn row(item: &Person) -> PersonView {
        item@
    }

    open spec fn key(item: &Person) -> ID {
        item.id
    }

    fn get_one(&self, id: ID) -> (found: Option<&Person>) {
        let found = self.persons.get(&id);
        assert(found is Some <==> self@.contains_key(id));
        assert(found is Some ==> Self::row(found.unwrap()) == self@[id]);
        found
    }

    fn get_all(&self) -> (all: Vec<&Person>) {
        let order = self.ids();
        let mut all: Vec<&Person> = Vec::new();
        let mut at: usize = 0;
        while at < order.len()
            invariant
                at <= order@.len(),
                order@ == ascending(self@.dom()),
                lists(order@, self@.dom()),
                all@.len() == at,
                forall|i: int| 0 <= i < at ==> (#[trigger] all@[i])@ == self@[order@[i]],
            decreases order@.len() - at,
        {
            let id = order[at];
            assert(order@.contains(id));
            let found = self.persons.get(&id);
            all.push(found.unwrap());
            at += 1;
        }
        assert forall|i: int| 0 <= i < all@.len() implies Self::row(#[trigger] all@[i]) == self@[ascending(
            self@.dom(),
        )[i]] by {
            assert(all@[i]@ == self@[order@[i]]);
        }
        all
    }

    fn insert(&mut self, e: Person) -> (kept: Option<&Person>) {
        let id = e.id;
        self.persons.insert(id, e);
        assert(self@ =~= old(self)@.insert(Self::key(&e), Self::row(&e)));
        let kept = self.persons.get(&id);
        assert(kept is Some && Self::row(kept.unwrap()) == Self::row(&e));
        kept
    }

    fn remove(&mut self, id: ID) {
        self.persons.remove(&id);
        assert(self@ =~= old(self)@.remove(id));
    }

    fn clear(&mut self) {
        self.persons.clear();
        assert(self@ =~= Map::<ID, PersonView>::empty());
    }

    fn update(&mut self, e: Person) {
        if self.persons.contains_key(&e.id) {
            self.persons.insert(e.id, e);
            assert(self@ =~= old(self)@.insert(Self::key(&e), Self::row(&e)));
        } else {
            assert(!old(self)@.contains_key(Self::key(&e)));
        }
    }

    fn contains(&self, id: ID) -> (found: bool) {
        assert(self@.contains_key(id) == self.persons@.contains_key(id));
        self.persons.contains_key(&id)
    }

    fn len(&self) -> (n: usize) {
        assert(self@.dom() =~= self.persons@.dom());
        self.persons.len()
    }
}

} // verus!
