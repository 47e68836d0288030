use vstd::prelude::*;

verus! {

/// A per-key window state that a storage can hold.
pub trait State: Sized {
    /// The key that the state belongs to.
    spec fn id(&self) -> Seq<char>;

    fn get_id(&self) -> (r: String)
        ensures
            r@ == self.id(),
    ;

    /// How long, in milliseconds, a storage should keep the state.
    spec fn expiration(&self) -> usize;

    fn get_expiration_time(&self) -> (r: usize)
        ensures
            r == self.expiration(),
    ;

    /// An identical copy of the state.
    fn copy_state(&self) -> (r: Self)
        ensures
            r == *self,
    ;
}

/// A key-addressed store of window states.
///
/// A policy holds the storage by exclusive reference for its whole lifetime,
/// so each fetch, decision and save on a key runs as one transaction.
pub trait Storage<S: State> {
    /// The states held, by key.
    spec fn stored(&self) -> Map<Seq<char>, S>;

    /// The storage's own consistency condition.
    spec fn well_formed(&self) -> bool;

    fn fetch(&self, key: &str) -> (r: Option<S>)
        requires
            self.well_formed(),
        ensures
            r == (if self.stored().contains_key(key@) {
                Some(self.stored()[key@])
            } else {
                None::<S>
            }),
    ;

    fn save(&mut self, key: String, value: S)
        requires
            old(self).well_formed(),
        ensures
            final(self).well_formed(),
            final(self).stored() == old(self).stored().insert(key@, value),
    ;
}

/// A hash index from keys to slot numbers.
#[verifier::external_body]
pub struct KeyIndex {
    map: hashbrown::HashMap<String, usize>,
}

/// The slot number recorded for each key of an index.
pub uninterp spec fn index_entries(index: KeyIndex) -> Map<Seq<char>, usize>;

impl KeyIndex {
    /// Relies on hashbrown::HashMap::new: the map starts empty.
    #[verifier::external_body]
    fn new() -> (r: KeyIndex)
        ensures
            index_entries(r).dom().is_empty(),
    {
        KeyIndex { map: hashbrown::HashMap::new() }
    }

    /// Relies on hashbrown::HashMap::get: the value stored under the key, if any.
    #[verifier::external_body]
    fn get(&self, key: &str) -> (r: Option<usize>)
        ensures
            r == (if index_entries(*self).contains_key(key@) {
                Some(index_entries(*self)[key@])
            } else {
                None::<usize>
            }),
    {
        self.map.get(key).copied()
    }

    /// Relies on hashbrown::HashMap::insert: the key maps to the value afterwards,
    /// other keys are unchanged.
    #[verifier::external_body]
    fn insert(&mut self, key: String, slot: usize)
        ensures
            index_entries(*final(self)) == index_entries(*old(self)).insert(key@, slot),
    {
        self.map.insert(key, slot);
    }
}

/// An in-process storage: each key owns one slot of a vector of states,
/// found through a hash index.
pub struct InMemoryStorage<S: State> {
    index: KeyIndex,
    slots: Vec<S>,
}

impl<S: State> InMemoryStorage<S> {
    pub fn new() -> (r: Self)
        ensures
            r.well_formed(),
            r.stored() == Map::<Seq<char>, S>::empty(),
    {
        let r = InMemoryStorage { index: KeyIndex::new(), slots: Vec::new() };
        assert(r.stored() =~= Map::<Seq<char>, S>::empty());
        r
    }
}

impl<S: State> Storage<S> for InMemoryStorage<S> {
    closed spec fn stored(&self) -> Map<Seq<char>, S> {
        Map::new(
            |k: Seq<char>| index_entries(self.index).contains_key(k),
            |k: Seq<char>| self.slots@[index_entries(self.index)[k] as int],
        )
    }

    closed spec fn well_formed(&self) -> bool {
        (forall|k: Seq<char>|
            #[trigger] index_entries(self.index).contains_key(k) ==> index_entries(self.index)[k]
                < self.slots@.len()) && (forall|k1: Seq<char>, k2: Seq<char>|
            #![trigger index_entries(self.index)[k1], index_entries(self.index)[k2]]
            index_entries(self.index).contains_key(k1) && index_entries(self.index).contains_key(k2)
                && k1 != k2 ==> index_entries(self.index)[k1] != index_entries(self.index)[k2])
    }

    fn fetch(&self, key: &str) -> (r: Option<S>) {
        match self.index.get(key) {
            Some(i) => Some(self.slots[i].copy_state()),
            None => None,
        }
    }

    fn save(&mut self, key: String, value: S) {
        match self.index.get(key.as_str()) {
            Some(i) => {
                self.slots.set(i, value);
            },
            None => {
                let n = self.slots.len();
                self.slots.push(value);
                self.index.insert(key, n);
            },
        }
        proof {
            let before = old(self).stored().insert(key@, value);
            let after = self.stored();
            assert forall|k: Seq<char>| #[trigger] after.contains_key(k) == before.contains_key(k) by {}
            assert forall|k: Seq<char>| after.contains_key(k) implies #[trigger] after[k]
                == before[k] by {
                if k != key@ {
                    let j = index_entries(old(self).index)[k];
                    assert(index_entries(old(self).index).contains_key(k));
                    assert(index_entries(self.index)[k] == j);
                }
            }
            assert(after =~= before);
        }
    }
}

} // verus!
