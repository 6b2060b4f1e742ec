use std::collections::HashMap;
use vstd::prelude::*;

verus! {

broadcast use vstd::std_specs::hash::group_hash_axioms;

/// Rendered buffers keyed by output scale.
///
/// A key is the bit pattern of a (non-NaN, non-negative-zero) `f64` scale.
/// A stored `None` records that rendering at that scale failed, so that it is
/// not retried.
pub struct ScaleCache<B> {
    entries: HashMap<u64, Option<B>>,
}

impl<B> View for ScaleCache<B> {
    type V = Map<u64, Option<B>>;

    closed spec fn view(&self) -> Map<u64, Option<B>> {
        self.entries@
    }
}

impl<B> ScaleCache<B> {
    /// An empty cache.
    pub fn new() -> (c: Self)
        ensures
            c@ == Map::<u64, Option<B>>::empty(),
    {
        ScaleCache { entries: HashMap::new() }
    }

    /// Whether a render result (successful or not) is stored for `key`.
    pub fn contains(&self, key: u64) -> (r: bool)
        ensures
            r == self@.contains_key(key),
    {
        self.entries.contains_key(&key)
    }

    /// The stored render result for `key`, if any.
    pub fn get(&self, key: u64) -> (r: Option<&Option<B>>)
        ensures
            r matches Some(v) ==> self@.contains_key(key) && *v == self@[key],
            r is None ==> !self@.contains_key(key),
    {
        self.entries.get(&key)
    }

    /// Stores `value` for `key`, replacing what was there.
    pub fn insert(&mut self, key: u64, value: Option<B>)
        ensures
            final(self)@ == old(self)@.insert(key, value),
    {
        self.entries.insert(key, value);
    }

    /// Forgets every stored result.
    pub fn clear(&mut self)
        ensures
            final(self)@ == Map::<u64, Option<B>>::empty(),
    {
        self.entries.clear();
    }
}

} // verus!
