//! Access to the entries of a [`HashMap`] in place.
use std::collections::HashMap;
use vstd::prelude::*;

verus! {

/// Calls [`HashMap::get_mut`] and is trusted to behave as that method is documented:
/// it hands out the value stored under `key`, if there is one, and leaves every other entry
/// alone. Whatever is written through the reference is what the map holds under `key`
/// afterwards.
#[verifier::external_body]
pub(crate) fn get_mut<V>(map: &mut HashMap<usize, V>, key: usize) -> (entry: Option<&mut V>)
    ensures
        match entry {
            Some(value) => {
                &&& old(map)@.contains_key(key)
                &&& *value == old(map)@[key]
                &&& final(map)@ == old(map)@.insert(key, *final(value))
            },
            None => !old(map)@.contains_key(key) && final(map)@ == old(map)@,
        },
{
    map.get_mut(&key)
}

} // verus!
