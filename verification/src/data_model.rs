//! The model part of the application: numbers kept by name.
use vstd::prelude::*;
use vstd::hash_map::StringHashMap;

verus! {

/// Sample numbers, each under a name such as `someValueCategory.thisNumber`.
pub struct SampleNumbers {
    numbers: StringHashMap<i32>,
}

impl View for SampleNumbers {
    type V = Map<Seq<char>, i32>;

    closed spec fn view(&self) -> Map<Seq<char>, i32> {
        self.numbers@
    }
}

impl SampleNumbers {
    /// A store with no numbers.
    pub fn new() -> (store: SampleNumbers)
        ensures
            store@ == Map::<Seq<char>, i32>::empty(),
    {
        SampleNumbers { numbers: StringHashMap::new() }
    }

    /// The number stored under `name`, if any.
    pub fn get(&self, name: &str) -> (found: Option<i32>)
        ensures
            found matches Some(v) ==> self@.contains_key(name@) && v == self@[name@],
            found is None ==> !self@.contains_key(name@),
    {
        match self.numbers.get(name) {
            Some(v) => Some(*v),
            None => None,
        }
    }

    /// Whether a number is stored under `name`.
    pub fn contains_key(&self, name: &str) -> (found: bool)
        ensures
            found == self@.contains_key(name@),
    {
        self.numbers.contains_key(name)
    }

    /// Stores `value` under `name`, replacing what was there.
    pub fn insert(&mut self, name: String, value: i32)
        ensures
            final(self)@ == old(self)@.insert(name@, value),
    {
        self.numbers.insert(name, value);
    }
}

/// Forgets every stored number (used when Dart restarts).
pub fn clean_model(store: &mut SampleNumbers)
    ensures
        final(store)@ == Map::<Seq<char>, i32>::empty(),
{
    *store = SampleNumbers::new();
}

} // verus!
