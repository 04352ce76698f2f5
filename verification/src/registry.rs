//! The tablets that are open, by id and suffix.

use std::collections::HashMap;
use std::sync::Arc;
use vstd::prelude::*;

use crate::shared::share;

verus! {

broadcast use vstd::std_specs::hash::group_hash_axioms;

/// A tablet that is open: an engine of type `H`, shared by all that use the
/// tablet, and the path that the engine goes by.
pub struct OpenTablet<H> {
    pub path: String,
    pub engine: Arc<H>,
}

impl<H> Clone for OpenTablet<H> {
    /// The same tablet, sharing the engine.
    fn clone(&self) -> (tablet: Self)
        ensures
            tablet == *self,
    {
        OpenTablet { path: self.path.clone(), engine: share(&self.engine) }
    }
}

/// The tablets that are open, by id and suffix.
pub struct Registry<H> {
    /// Keyed by the id and the suffix in one number.
    tablets: HashMap<u128, OpenTablet<H>>,
}

/// How many suffixes there are to an id.
const SUFFIXES: u128 = 0x1_0000_0000_0000_0000;

/// The number that stands for an id and a suffix.
spec fn code(key: (u64, u64)) -> u128 {
    (key.0 * SUFFIXES + key.1) as u128
}

/// The id and the suffix that a number stands for.
spec fn decode(code: u128) -> (u64, u64) {
    ((code / SUFFIXES) as u64, (code % SUFFIXES) as u64)
}

/// Ids with suffixes and the numbers that stand for them belong together one by
/// one.
proof fn lemma_code()
    ensures
        forall|key: (u64, u64)| decode(#[trigger] code(key)) == key,
        forall|c: u128| code(#[trigger] decode(c)) == c,
{
    assert forall|key: (u64, u64)| decode(#[trigger] code(key)) == key by {
        let sum = key.0 * SUFFIXES + key.1;
        assert(0 <= sum <= u128::MAX);
        assert(sum / (SUFFIXES as int) == key.0);
        assert(sum % (SUFFIXES as int) == key.1);
    }
    assert forall|c: u128| code(#[trigger] decode(c)) == c by {
        assert(c / SUFFIXES < SUFFIXES);
        assert((c / SUFFIXES) * SUFFIXES + c % SUFFIXES == c);
    }
}

/// The number that stands for an id and a suffix.
fn encode(id: u64, suffix: u64) -> (c: u128)
    ensures
        c == code((id, suffix)),
{
    id as u128 * SUFFIXES + suffix as u128
}

impl<H> View for Registry<H> {
    type V = Map<(u64, u64), OpenTablet<H>>;

    closed spec fn view(&self) -> Map<(u64, u64), OpenTablet<H>> {
        Map::new(
            |key: (u64, u64)| self.tablets@.contains_key(code(key)),
            |key: (u64, u64)| self.tablets@[code(key)],
        )
    }
}

impl<H> Registry<H> {
    /// A registry without tablets.
    pub fn new() -> (registry: Self)
        ensures
            registry@ == Map::<(u64, u64), OpenTablet<H>>::empty(),
    {
        let registry = Registry { tablets: HashMap::new() };
        assert(registry@ =~= Map::<(u64, u64), OpenTablet<H>>::empty());
        registry
    }

    /// The tablet with an id and a suffix, if it is open.
    pub fn get(&self, id: u64, suffix: u64) -> (tablet: Option<&OpenTablet<H>>)
        ensures
            match tablet {
                Some(tablet) => self@.contains_key((id, suffix)) && *tablet == self@[(id, suffix)],
                None => !self@.contains_key((id, suffix)),
            },
    {
        self.tablets.get(&encode(id, suffix))
    }

    /// Registers a tablet, in the place of the one that had the id and the
    /// suffix before, if any.
    pub fn insert(&mut self, id: u64, suffix: u64, tablet: OpenTablet<H>)
        ensures
            final(self)@ == old(self)@.insert((id, suffix), tablet),
    {
        self.tablets.insert(encode(id, suffix), tablet);
        proof {
            lemma_code();
        }
        assert(self@ =~= old(self)@.insert((id, suffix), tablet));
    }

    /// Forgets the tablet with an id and a suffix.
    pub fn remove(&mut self, id: u64, suffix: u64)
        ensures
            final(self)@ == old(self)@.remove((id, suffix)),
    {
        self.tablets.remove(&encode(id, suffix));
        proof {
            lemma_code();
        }
        assert(self@ =~= old(self)@.remove((id, suffix)));
    }

    /// Ids and suffixes of all tablets, each once, in no particular order.
    pub fn keys(&self) -> (keys: Vec<(u64, u64)>)
        ensures
            keys@.no_duplicates(),
            keys@.to_set() == self@.dom(),
    {
        let mut keys: Vec<(u64, u64)> = Vec::new();
        proof {
            lemma_code();
        }
        let ghost codes = vstd::std_specs::iter::IteratorSpec::remaining(
            &vstd::std_specs::hash::spec_keys_iter(&self.tablets),
        );
        for c in it: self.tablets.keys()
            invariant
                it.seq() == codes,
                keys@.len() == it.index(),
                forall|j: int| 0 <= j < it.index() ==> #[trigger] keys@[j] == decode(*codes[j]),
        {
            keys.push(((*c / SUFFIXES) as u64, (*c % SUFFIXES) as u64));
        }
        proof {
            assert(codes.unref().to_set() == self.tablets@.dom());
            assert forall|key: (u64, u64)| keys@.contains(key) == self@.contains_key(key) by {
                if keys@.contains(key) {
                    let j = choose|j: int| 0 <= j < keys@.len() && keys@[j] == key;
                    assert(codes.unref()[j] == code(key));
                    assert(codes.unref().to_set().contains(code(key)));
                }
                if self@.contains_key(key) {
                    assert(codes.unref().to_set().contains(code(key)));
                    let j = choose|j: int|
                        0 <= j < codes.unref().len() && codes.unref()[j] == code(key);
                    assert(keys@[j] == key);
                }
            }
            assert(keys@.to_set() =~= self@.dom());
        }
        keys
    }
}

} // verus!
