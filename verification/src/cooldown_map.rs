//! The hash table that holds the cooldown of each action.
use crate::cooldown::Cooldown;
use vstd::prelude::*;

verus! {

/// A hash table from the index of an action to its [`Cooldown`].
///
/// The table is a [`bevy::utils::HashMap`]. Verified code cannot look inside one: it knows
/// the table by [`cooldown_entries`] alone, and reaches it through the functions of this module.
#[verifier::external_body]
#[derive(Debug)]
pub struct CooldownMap {
    inner: bevy::utils::HashMap<usize, Cooldown>,
}

/// The entries that `map` holds.
pub uninterp spec fn cooldown_entries(map: CooldownMap) -> Map<usize, Cooldown>;

/// Calls `HashMap::default`, which is trusted to create a table without entries.
#[verifier::external_body]
pub(crate) fn empty() -> (map: CooldownMap)
    ensures
        forall|key: usize| !cooldown_entries(map).contains_key(key),
{
    CooldownMap { inner: bevy::utils::HashMap::default() }
}

/// Calls `HashMap::clone`, which is trusted to copy every entry.
#[verifier::external_body]
pub(crate) fn duplicate(map: &CooldownMap) -> (copy: CooldownMap)
    ensures
        cooldown_entries(copy) == cooldown_entries(*map),
{
    CooldownMap { inner: map.inner.clone() }
}

/// Calls `HashMap::get`, which is trusted to find the value stored under `key`, if there is one.
#[verifier::external_body]
pub(crate) fn get(map: &CooldownMap, key: usize) -> (entry: Option<&Cooldown>)
    ensures
        match entry {
            Some(cooldown) => cooldown_entries(*map).contains_key(key) && *cooldown
                == cooldown_entries(*map)[key],
            None => !cooldown_entries(*map).contains_key(key),
        },
{
    map.inner.get(&key)
}

/// Calls `HashMap::get_mut`, which is trusted to hand out the value stored under `key`, if
/// there is one, and to leave every other entry alone. Whatever is written through the
/// reference is what the table holds under `key` afterwards.
#[verifier::external_body]
pub(crate) fn get_mut(map: &mut CooldownMap, key: usize) -> (entry: Option<&mut Cooldown>)
    ensures
        match entry {
            Some(cooldown) => {
                &&& cooldown_entries(*old(map)).contains_key(key)
                &&& *cooldown == cooldown_entries(*old(map))[key]
                &&& cooldown_entries(*final(map)) == cooldown_entries(*old(map)).insert(
                    key,
                    *final(cooldown),
                )
            },
            None => {
                &&& !cooldown_entries(*old(map)).contains_key(key)
                &&& cooldown_entries(*final(map)) == cooldown_entries(*old(map))
            },
        },
{
    map.inner.get_mut(&key)
}

/// Calls `HashMap::insert`, which is trusted to store `cooldown` under `key`, in place of
/// what was stored there before, and to return what was stored there before.
#[verifier::external_body]
pub(crate) fn insert(map: &mut CooldownMap, key: usize, cooldown: Cooldown) -> (previous: Option<Cooldown>)
    ensures
        cooldown_entries(*final(map)) == cooldown_entries(*old(map)).insert(key, cooldown),
        previous == if cooldown_entries(*old(map)).contains_key(key) {
            Some(cooldown_entries(*old(map))[key])
        } else {
            None
        },
{
    map.inner.insert(key, cooldown)
}

/// Calls `HashMap::keys`, which is trusted to visit every key of the table once, in an order
/// that nothing is promised about.
#[verifier::external_body]
pub(crate) fn keys(map: &CooldownMap) -> (keys: Vec<usize>)
    ensures
        keys@.no_duplicates(),
        forall|key: usize| keys@.contains(key) <==> cooldown_entries(*map).contains_key(key),
{
    map.inner.keys().copied().collect()
}

} // verus!
