//! Pools are a reservoir of resources that can be used to pay for abilities, or keep track of character state.
//!
//! Unlike charges, pools are typically shared across abilities.
//!
//! Life, mana, energy and rage might all be modelled effectively as pools.
//! Pools have a maximum value and a minimum value (almost always zero), can regenerate over time, and can be spent to pay for abilities.
//!
//! Quantities are whole numbers: pick a unit that is fine enough for the smallest amount
//! that your game deals in.
use crate::hash_map::get_mut;
use crate::time::{duration_nanos, nanos_of};
use crate::{Abilitylike, CannotUseAbility};
use core::marker::PhantomData;
use core::time::Duration;
use std::collections::HashMap;
use vstd::arithmetic::div_mod::lemma_fundamental_div_mod;
use vstd::arithmetic::div_mod::lemma_fundamental_div_mod_converse;
use crate::charges::lemma_unref_keeps_keys;
use vstd::prelude::*;
use vstd::std_specs::hash::{into_iter_keys, spec_keys_iter};
use vstd::std_specs::iter::IteratorSpec;

verus! {

broadcast use vstd::std_specs::hash::group_hash_axioms;

/// `value`, moved into the range from `min` to `max` by the shortest way.
pub open spec fn clamp(value: int, min: int, max: int) -> int {
    if value < min {
        min
    } else if value > max {
        max
    } else {
        value
    }
}

/// `amount`, as far as a quantity can hold it.
pub open spec fn saturated(amount: int) -> i64 {
    clamp(amount, i64::MIN as int, i64::MAX as int) as i64
}

/// Computes `amount`, as far as a quantity can hold it.
pub fn saturate(amount: i128) -> (saturated_amount: i64)
    ensures
        saturated_amount == saturated(amount as int),
{
    if amount < i64::MIN as i128 {
        i64::MIN
    } else if amount > i64::MAX as i128 {
        i64::MAX
    } else {
        amount as i64
    }
}

/// What a pool with the rate `regen_per_second` recovers in `delta` nanoseconds:
/// the rate times the seconds that have passed, rounded towards zero.
pub open spec fn regenerated(regen_per_second: int, delta: nat) -> int {
    if regen_per_second >= 0 {
        (regen_per_second * delta) / 1_000_000_000
    } else {
        -((-regen_per_second * delta) / 1_000_000_000)
    }
}

/// The maximum value for a [`Pool`] was set to be less than its minimum.
#[derive(Debug, Clone, Copy, PartialEq, Eq, Structural)]
pub struct MaxPoolLessThanMin;

impl MaxPoolLessThanMin {
    /// A human-readable explanation of this error.
    pub fn message(&self) -> (text: &'static str)
        ensures
            text@
                == "The maximum quantity that can be stored in a pool must be greater than the minimum value."@,
    {
        "The maximum quantity that can be stored in a pool must be greater than the minimum value."
    }
}

/// A reservoir of a resource that can be used to pay for abilities, or keep track of character state.
///
/// Each type that implements this trait holds the current quantity, the maximum, and the rate
/// at which the quantity recovers by itself.
///
/// The contracts of this trait speak of a pool through four numbers:
/// [`min_amount`](Pool::min_amount), [`current_amount`](Pool::current_amount),
/// [`max_amount`](Pool::max_amount) and [`regen_amount`](Pool::regen_amount).
pub trait Pool: Sized {
    /// A type that tracks the quantity within a pool.
    ///
    /// Unlike a [`Pool`] type, which stores a max, min and regeneration,
    /// quantities are lighter weight and should be used for things like damage amounts, mana costs and regen rates.
    type Quantity: Copy;

    /// The number that `quantity` stands for.
    spec fn amount(quantity: Self::Quantity) -> int;

    /// The minimum value of the pool type.
    ///
    /// At this point, no resources remain to be spent.
    spec fn min_amount() -> int;

    /// The current quantity of resources in the pool.
    spec fn current_amount(&self) -> int;

    /// The maximum quantity of resources that this pool can store.
    spec fn max_amount(&self) -> int;

    /// The quantity recovered by the pool in one second: zero for a pool that does not
    /// recover by itself, negative for one that decays.
    spec fn regen_amount(&self) -> int;

    /// The number that `quantity` stands for.
    fn raw(quantity: Self::Quantity) -> (amount: i64)
        ensures
            amount == Self::amount(quantity),
    ;

    /// The quantity that stands for `amount`.
    fn quantity(amount: i64) -> (quantity: Self::Quantity)
        ensures
            Self::amount(quantity) == amount,
    ;

    /// The minimum value of the pool type.
    ///
    /// At this point, no resources remain to be spent.
    fn min() -> (min: Self::Quantity)
        ensures
            Self::amount(min) == Self::min_amount(),
    ;

    /// The current quantity of resources in the pool.
    fn current(&self) -> (current: Self::Quantity)
        ensures
            Self::amount(current) == self.current_amount(),
    ;

    /// Check if the given cost can be paid by this pool.
    fn available(&self, amount: Self::Quantity) -> (outcome: Result<(), CannotUseAbility>)
        ensures
            outcome == pool_available(self.current_amount(), Self::amount(amount)),
    {
        if Self::raw(self.current()) >= Self::raw(amount) {
            Ok(())
        } else {
            Err(CannotUseAbility::PoolInsufficient)
        }
    }

    /// Sets the current quantity of resources in the pool.
    ///
    /// This will be bounded by the minimum and maximum values of this pool.
    /// The value that was actually set is returned.
    fn set_current(&mut self, new_quantity: Self::Quantity) -> (current: Self::Quantity)
        requires
            Self::min_amount() <= old(self).current_amount() <= old(self).max_amount(),
        ensures
            Self::min_amount() <= final(self).current_amount() <= final(self).max_amount(),
            final(self).current_amount() == clamp(
                Self::amount(new_quantity),
                Self::min_amount(),
                old(self).max_amount(),
            ),
            final(self).max_amount() == old(self).max_amount(),
            final(self).regen_amount() == old(self).regen_amount(),
            Self::amount(current) == final(self).current_amount(),
    ;

    /// The maximum quantity of resources that this pool can store.
    fn max(&self) -> (max: Self::Quantity)
        ensures
            Self::amount(max) == self.max_amount(),
    ;

    /// Sets the maximum quantity of resources that this pool can store.
    ///
    /// The current value will be reduced to the new max if necessary.
    ///
    /// Has no effect if `new_max` is less than the minimum of the pool type:
    /// a [`MaxPoolLessThanMin`] error is returned then.
    fn set_max(&mut self, new_max: Self::Quantity) -> (outcome: Result<(), MaxPoolLessThanMin>)
        requires
            Self::min_amount() <= old(self).current_amount() <= old(self).max_amount(),
        ensures
            Self::min_amount() <= final(self).current_amount() <= final(self).max_amount(),
            outcome is Ok <==> Self::amount(new_max) >= Self::min_amount(),
            outcome is Ok ==> {
                &&& final(self).max_amount() == Self::amount(new_max)
                &&& final(self).current_amount() == clamp(
                    old(self).current_amount(),
                    Self::min_amount(),
                    Self::amount(new_max),
                )
                &&& final(self).regen_amount() == old(self).regen_amount()
            },
            outcome is Err ==> *final(self) == *old(self),
    ;

    /// Is the pool currently full?
    fn is_full(&self) -> (full: bool)
        ensures
            full == (self.current_amount() == self.max_amount()),
    {
        Self::raw(self.current()) == Self::raw(self.max())
    }

    /// Is the pool currently empty?
    ///
    /// Note that this compares the current value to the minimum of the pool type, not `0`.
    fn is_empty(&self) -> (empty: bool)
        ensures
            empty == (self.current_amount() == Self::min_amount()),
    {
        Self::raw(self.current()) == Self::raw(Self::min())
    }

    /// Spend the specified amount from the pool, if there is that much available.
    ///
    /// Otherwise, return the error [`CannotUseAbility::PoolInsufficient`] and change nothing.
    fn expend(&mut self, amount: Self::Quantity) -> (outcome: Result<(), CannotUseAbility>)
        requires
            Self::min_amount() <= old(self).current_amount() <= old(self).max_amount(),
        ensures
            Self::min_amount() <= final(self).current_amount() <= final(self).max_amount(),
            outcome == pool_available(old(self).current_amount(), Self::amount(amount)),
            outcome is Ok ==> {
                &&& final(self).current_amount() == clamp(
                    old(self).current_amount() - Self::amount(amount),
                    Self::min_amount(),
                    old(self).max_amount(),
                )
                &&& final(self).max_amount() == old(self).max_amount()
                &&& final(self).regen_amount() == old(self).regen_amount()
            },
            outcome is Err ==> *final(self) == *old(self),
    {
        match self.available(amount) {
            Ok(_) => {},
            Err(error) => {
                return Err(error);
            },
        }
        let min: i64 = Self::raw(Self::min());
        let max: i64 = Self::raw(self.max());
        let new_current: i128 = Self::raw(self.current()) as i128 - Self::raw(amount) as i128;
        let bounded: i64 = if new_current < min as i128 {
            min
        } else if new_current > max as i128 {
            max
        } else {
            new_current as i64
        };
        self.set_current(Self::quantity(bounded));
        Ok(())
    }

    /// Replenish the pool by the specified amount.
    ///
    /// This cannot cause the pool to exceed maximum value that can be stored in the pool.
    /// This is the sign-flipped counterpart to [`Self::expend`],
    /// however, unlike [`Self::expend`], this method never fails.
    fn replenish(&mut self, amount: Self::Quantity)
        requires
            Self::min_amount() <= old(self).current_amount() <= old(self).max_amount(),
        ensures
            Self::min_amount() <= final(self).current_amount() <= final(self).max_amount(),
            final(self).current_amount() == clamp(
                old(self).current_amount() + Self::amount(amount),
                Self::min_amount(),
                old(self).max_amount(),
            ),
            final(self).max_amount() == old(self).max_amount(),
            final(self).regen_amount() == old(self).regen_amount(),
    {
        let min: i64 = Self::raw(Self::min());
        let max: i64 = Self::raw(self.max());
        let new_current: i128 = Self::raw(self.current()) as i128 + Self::raw(amount) as i128;
        let bounded: i64 = if new_current < min as i128 {
            min
        } else if new_current > max as i128 {
            max
        } else {
            new_current as i64
        };
        self.set_current(Self::quantity(bounded));
    }
}

/// The invariant of every pool: it holds no less than the minimum of its type and no more
/// than its maximum.
pub open spec fn pool_wf<P: Pool>(pool: &P) -> bool {
    P::min_amount() <= pool.current_amount() <= pool.max_amount()
}

/// What a check of a pool that holds `current` reports when `amount` is asked for.
pub open spec fn pool_available(current: int, amount: int) -> Result<(), CannotUseAbility> {
    if current >= amount {
        Ok(())
    } else {
        Err(CannotUseAbility::PoolInsufficient)
    }
}

/// More than any pool has room for: the distance from the least to the greatest number
/// that a quantity can stand for, and one.
pub const BEYOND_ANY_POOL: u128 = 18_446_744_073_709_551_616;

/// Computes how much a rate of the size `magnitude` yields in `delta_nanos` nanoseconds,
/// as far as it matters to a pool.
fn scaled(magnitude: u128, delta_nanos: u128) -> (gained: u128)
    requires
        magnitude <= 0x8000_0000_0000_0000,
    ensures
        gained == if (magnitude * delta_nanos) / 1_000_000_000 > BEYOND_ANY_POOL {
            BEYOND_ANY_POOL as int
        } else {
            (magnitude * delta_nanos) / 1_000_000_000
        },
{
    let secs: u128 = delta_nanos / 1_000_000_000;
    let subsec: u128 = delta_nanos % 1_000_000_000;
    assert(magnitude * subsec <= 0x8000_0000_0000_0000 * 1_000_000_000) by (nonlinear_arith)
        requires
            magnitude <= 0x8000_0000_0000_0000,
            subsec < 1_000_000_000,
    ;
    let fraction: u128 = (magnitude * subsec) / 1_000_000_000;
    proof {
        let rest = (magnitude * subsec) % 1_000_000_000;
        lemma_fundamental_div_mod(magnitude * subsec, 1_000_000_000);
        assert(magnitude * delta_nanos == (magnitude * secs) * 1_000_000_000 + magnitude * subsec)
            by (nonlinear_arith)
            requires
                delta_nanos == secs * 1_000_000_000 + subsec,
        ;
        assert((magnitude * secs + fraction) * 1_000_000_000 == (magnitude * secs) * 1_000_000_000
            + fraction * 1_000_000_000) by (nonlinear_arith);
        lemma_fundamental_div_mod_converse(
            magnitude * delta_nanos,
            1_000_000_000,
            magnitude * secs + fraction,
            rest as int,
        );
        assert(0 <= magnitude * secs) by (nonlinear_arith)
            requires
                0 <= magnitude,
                0 <= secs,
        ;
    }
    match magnitude.checked_mul(secs) {
        Some(whole) => match whole.checked_add(fraction) {
            Some(total) => if total > BEYOND_ANY_POOL {
                BEYOND_ANY_POOL
            } else {
                total
            },
            None => BEYOND_ANY_POOL,
        },
        None => BEYOND_ANY_POOL,
    }
}

/// A resource pool that regenerates (or decays) over time.
///
/// Set the regeneration rate to a positive value to regenerate, or a negative value to decay.
pub trait RegeneratingPool: Pool {
    /// The quantity recovered by the pool in one second.
    ///
    /// This value may be negative, in the case of automatically decaying pools (like rage).
    fn regen_per_second(&self) -> (regen_per_second: Self::Quantity)
        ensures
            Self::amount(regen_per_second) == self.regen_amount(),
    ;

    /// Set the quantity recovered by the pool in one second.
    ///
    /// This value may be negative, in the case of automatically decaying pools (like rage).
    fn set_regen_per_second(&mut self, new_regen_per_second: Self::Quantity)
        ensures
            final(self).regen_amount() == Self::amount(new_regen_per_second),
            final(self).current_amount() == old(self).current_amount(),
            final(self).max_amount() == old(self).max_amount(),
    ;

    /// Regenerates this pool according to the `delta_nanos` nanoseconds that have passed.
    ///
    /// The pool gains its rate times the seconds that have passed, rounded towards zero,
    /// and stays within its bounds.
    fn regenerate_nanos(&mut self, delta_nanos: u128)
        requires
            Self::min_amount() <= old(self).current_amount() <= old(self).max_amount(),
        ensures
            Self::min_amount() <= final(self).current_amount() <= final(self).max_amount(),
            final(self).current_amount() == clamp(
                old(self).current_amount() + regenerated(
                    old(self).regen_amount(),
                    delta_nanos as nat,
                ),
                Self::min_amount(),
                old(self).max_amount(),
            ),
            final(self).max_amount() == old(self).max_amount(),
            final(self).regen_amount() == old(self).regen_amount(),
    {
        let regen: i64 = Self::raw(self.regen_per_second());
        let min: i64 = Self::raw(Self::min());
        let max: i64 = Self::raw(self.max());
        let current: i64 = Self::raw(self.current());
        let new_current: i64 = if regen >= 0 {
            let gained: u128 = scaled(regen as u128, delta_nanos);
            let room: u128 = (max as i128 - current as i128) as u128;
            if gained >= room {
                max
            } else {
                (current as i128 + gained as i128) as i64
            }
        } else {
            let lost: u128 = scaled((-(regen as i128)) as u128, delta_nanos);
            let stock: u128 = (current as i128 - min as i128) as u128;
            if lost >= stock {
                min
            } else {
                (current as i128 - lost as i128) as i64
            }
        };
        self.set_current(Self::quantity(new_current));
    }

    /// Regenerates this pool according to the elapsed `delta_time`.
    ///
    /// The pool gains its rate times the seconds that have passed, rounded towards zero,
    /// and stays within its bounds.
    fn regenerate(&mut self, delta_time: Duration)
        requires
            Self::min_amount() <= old(self).current_amount() <= old(self).max_amount(),
        ensures
            Self::min_amount() <= final(self).current_amount() <= final(self).max_amount(),
            final(self).current_amount() == clamp(
                old(self).current_amount() + regenerated(
                    old(self).regen_amount(),
                    duration_nanos(delta_time),
                ),
                Self::min_amount(),
                old(self).max_amount(),
            ),
            final(self).max_amount() == old(self).max_amount(),
            final(self).regen_amount() == old(self).regen_amount(),
    {
        self.regenerate_nanos(nanos_of(delta_time))
    }
}

/// The cost of every action, as a map from the index of the action to a number.
pub open spec fn cost_amounts<P: Pool>(entries: Map<usize, P::Quantity>) -> Map<usize, int> {
    entries.map_values(|cost: P::Quantity| P::amount(cost))
}

/// Taking amounts commutes with storing an entry.
proof fn lemma_cost_amounts_insert<P: Pool>(entries: Map<usize, P::Quantity>, index: usize)
    ensures
        forall|cost: P::Quantity| #[trigger]
            cost_amounts::<P>(entries.insert(index, cost)) == cost_amounts::<P>(entries).insert(
                index,
                P::amount(cost),
            ),
{
    assert forall|cost: P::Quantity| #[trigger]
        cost_amounts::<P>(entries.insert(index, cost)) == cost_amounts::<P>(entries).insert(
            index,
            P::amount(cost),
        ) by {
        assert(cost_amounts::<P>(entries.insert(index, cost)) =~= cost_amounts::<P>(
            entries,
        ).insert(index, P::amount(cost)));
    }
}

/// The entries that a sequence of `(index, cost)` pairs describes:
/// where an index occurs more than once, the last pair counts.
pub open spec fn costs_from_pairs(pairs: Seq<(usize, int)>) -> Map<usize, int>
    decreases pairs.len(),
{
    if pairs.len() == 0 {
        Map::empty()
    } else {
        costs_from_pairs(pairs.drop_last()).insert(pairs.last().0, pairs.last().1)
    }
}

/// The cost of the action stored under `index`, if it has one.
pub open spec fn cost_of(costs: Map<usize, int>, index: usize) -> Option<int> {
    if costs.contains_key(index) {
        Some(costs[index])
    } else {
        None
    }
}

/// Stores the cost (in terms of the [`Pool::Quantity`] of ability) associated with each ability of type `A`.
///
/// An action without an entry costs nothing.
pub struct AbilityCosts<A, P: Pool> {
    /// The underlying cost of each ability, by the index of the ability.
    cost_map: HashMap<usize, P::Quantity>,
    _phantom: PhantomData<A>,
}

impl<A, P: Pool> View for AbilityCosts<A, P> {
    type V = Map<usize, int>;

    closed spec fn view(&self) -> Map<usize, int> {
        cost_amounts::<P>(self.cost_map@)
    }
}

impl<A, P: Pool> Clone for AbilityCosts<A, P> {
    fn clone(&self) -> (costs: Self)
        ensures
            costs@ == self@,
    {
        AbilityCosts { cost_map: self.cost_map.clone(), _phantom: PhantomData }
    }
}

impl<A, P: Pool> Default for AbilityCosts<A, P> {
    /// No action costs anything.
    fn default() -> (costs: Self)
        ensures
            costs@ == Map::<usize, int>::empty(),
    {
        let costs = AbilityCosts { cost_map: HashMap::new(), _phantom: PhantomData };
        assert(costs@ =~= Map::<usize, int>::empty());
        costs
    }
}

impl<A, P: Pool> AbilityCosts<A, P> {
    /// The order in which the table hands out its entries: the indices of all actions that
    /// have a cost, each once. Nothing more is known of the order.
    pub closed spec fn index_order(&self) -> Seq<usize> {
        into_iter_keys(spec_keys_iter(&self.cost_map))
    }

    /// The indices of all actions that have a cost, each once, in no particular order.
    pub fn indices(&self) -> (indices: Vec<usize>)
        ensures
            indices@ == self.index_order(),
            indices@.no_duplicates(),
            forall|index: usize| indices@.contains(index) <==> self@.contains_key(index),
    {
        let mut indices: Vec<usize> = Vec::new();
        let all_keys = self.cost_map.keys();
        let ghost keys = all_keys.remaining();
        assert(keys.unref() == self.index_order());
        for index in iter: all_keys
            invariant
                iter.seq() == keys,
                indices@ == keys.take(iter.index()).unref(),
        {
            proof {
                assert(keys.take(iter.index() + 1).unref() =~= keys.take(iter.index()).unref().push(
                    *index,
                ));
            }
            indices.push(*index);
        }
        proof {
            assert(keys.take(keys.len() as int) == keys);
            lemma_unref_keeps_keys(keys);
            assert(self@.dom() =~= self.cost_map@.dom());
        }
        indices
    }

    /// The costs of all actions that have one, in the order of [`Self::indices`].
    pub fn iter(&self) -> (all: Vec<&P::Quantity>)
        ensures
            all.len() == self.index_order().len(),
            forall|i: int|
                0 <= i < all.len() ==> self@.contains_key(#[trigger] self.index_order()[i])
                    && P::amount(*all@[i]) == self@[self.index_order()[i]],
    {
        let indices: Vec<usize> = self.indices();
        let mut all: Vec<&P::Quantity> = Vec::new();
        let mut i: usize = 0;
        while i < indices.len()
            invariant
                i <= indices.len(),
                indices@ == self.index_order(),
                forall|index: usize| indices@.contains(index) <==> self@.contains_key(index),
                all.len() == i,
                forall|j: int|
                    0 <= j < i ==> self@.contains_key(#[trigger] indices@[j]) && P::amount(*all@[j])
                        == self@[indices@[j]],
            decreases indices.len() - i,
        {
            let index: usize = indices[i];
            assert(indices@.contains(index));
            assert(cost_of(self@, index) is Some);
            let ghost collected = all@;
            match self.get_at(index) {
                Some(cost) => {
                    all.push(cost);
                },
                None => {},
            }
            assert(all@ == collected.push(all@[i as int]));
            i += 1;
        }
        all
    }

    /// Returns a reference to the cost stored under `index`, if set.
    pub fn get_at(&self, index: usize) -> (entry: Option<&P::Quantity>)
        ensures
            entry matches Some(cost) ==> cost_of(self@, index) == Some(P::amount(*cost)),
            entry is None ==> cost_of(self@, index) is None,
    {
        self.cost_map.get(&index)
    }

    /// Returns a mutable reference to the cost stored under `index`, if set.
    pub fn get_mut_at(&mut self, index: usize) -> (entry: Option<&mut P::Quantity>)
        ensures
            match entry {
                Some(cost) => {
                    &&& old(self)@.contains_key(index)
                    &&& P::amount(*cost) == old(self)@[index]
                    &&& final(self)@ == old(self)@.insert(index, P::amount(*final(cost)))
                },
                None => !old(self)@.contains_key(index) && final(self)@ == old(self)@,
            },
    {
        proof {
            lemma_cost_amounts_insert::<P>(self.cost_map@, index);
        }
        get_mut(&mut self.cost_map, index)
    }

    /// Stores `cost` under `index`.
    pub fn set_at(&mut self, index: usize, cost: P::Quantity)
        ensures
            final(self)@ == old(self)@.insert(index, P::amount(cost)),
    {
        proof {
            lemma_cost_amounts_insert::<P>(self.cost_map@, index);
        }
        self.cost_map.insert(index, cost);
    }
}

impl<A: Abilitylike, P: Pool> AbilityCosts<A, P> {
    /// Creates a new [`AbilityCosts`] from a list of `(action, cost)` pairs.
    ///
    /// If a [`Pool::Quantity`] is not provided for an action, that action will have no cost in terms of the stored resource pool.
    /// Where an action occurs more than once, its last pair counts.
    ///
    /// To create an empty [`AbilityCosts`] struct, use the [`Default::default`] method instead.
    pub fn new(action_cost_pairs: Vec<(A, P::Quantity)>) -> (costs: Self)
        ensures
            costs@ == costs_from_pairs(
                action_cost_pairs@.map_values(
                    |pair: (A, P::Quantity)| (pair.0.action_index(), P::amount(pair.1)),
                ),
            ),
    {
        let ghost pairs = action_cost_pairs@.map_values(
            |pair: (A, P::Quantity)| (pair.0.action_index(), P::amount(pair.1)),
        );
        let mut ability_costs: AbilityCosts<A, P> = AbilityCosts::default();
        let mut i: usize = 0;
        while i < action_cost_pairs.len()
            invariant
                i <= action_cost_pairs.len(),
                pairs == action_cost_pairs@.map_values(
                    |pair: (A, P::Quantity)| (pair.0.action_index(), P::amount(pair.1)),
                ),
                ability_costs@ == costs_from_pairs(pairs.take(i as int)),
            decreases action_cost_pairs.len() - i,
        {
            let index: usize = action_cost_pairs[i].0.index();
            let cost: P::Quantity = action_cost_pairs[i].1;
            proof {
                assert(pairs.take(i + 1).drop_last() == pairs.take(i as int));
                assert(pairs.take(i + 1).last() == (index, P::amount(cost)));
            }
            ability_costs.set_at(index, cost);
            i += 1;
        }
        proof {
            assert(pairs.take(i as int) == pairs);
        }
        ability_costs
    }

    /// Are enough resources available in the `pool` to use the `action`?
    ///
    /// Returns `true` if the action has no cost.
    pub fn available(&self, action: A, pool: &P) -> (available: bool)
        ensures
            available == (self@.contains_key(action.action_index()) ==> pool.current_amount()
                >= self@[action.action_index()]),
    {
        match self.get(action) {
            Some(cost) => pool.available(*cost).is_ok(),
            None => true,
        }
    }

    /// Pay the ability cost for the `action` from the `pool`, if able
    ///
    /// The cost of the action is expended from the [`Pool`].
    ///
    /// If the underlying pool does not have enough resources to pay the action's cost,
    /// a [`CannotUseAbility::PoolInsufficient`] error is returned and this call has no effect.
    ///
    /// An action without a cost is paid for without touching the pool.
    pub fn pay_cost(&mut self, action: A, pool: &mut P) -> (outcome: Result<(), CannotUseAbility>)
        requires
            pool_wf(old(pool)),
        ensures
            *final(self) == *old(self),
            pool_wf(final(pool)),
            match cost_of(old(self)@, action.action_index()) {
                Some(cost) => {
                    &&& outcome == pool_available(old(pool).current_amount(), cost)
                    &&& outcome is Ok ==> {
                        &&& final(pool).current_amount() == clamp(
                            old(pool).current_amount() - cost,
                            P::min_amount(),
                            old(pool).max_amount(),
                        )
                        &&& final(pool).max_amount() == old(pool).max_amount()
                        &&& final(pool).regen_amount() == old(pool).regen_amount()
                    }
                    &&& outcome is Err ==> *final(pool) == *old(pool)
                },
                None => outcome is Ok && *final(pool) == *old(pool),
            },
    {
        match self.get(action) {
            Some(cost) => pool.expend(*cost),
            None => Ok(()),
        }
    }

    /// Returns a reference to the underlying [`Pool::Quantity`] cost for `action`, if set.
    pub fn get(&self, action: A) -> (entry: Option<&P::Quantity>)
        ensures
            match entry {
                Some(cost) => self@.contains_key(action.action_index()) && P::amount(*cost)
                    == self@[action.action_index()],
                None => !self@.contains_key(action.action_index()),
            },
            entry matches Some(cost) ==> cost_of(self@, action.action_index()) == Some(
                P::amount(*cost),
            ),
            entry is None ==> cost_of(self@, action.action_index()) is None,
    {
        let index: usize = action.index();
        self.get_at(index)
    }


    /// Returns a mutable reference to the underlying [`Pool::Quantity`] cost for `action`, if set.
    pub fn get_mut(&mut self, action: A) -> (entry: Option<&mut P::Quantity>)
        ensures
            match entry {
                Some(cost) => {
                    &&& old(self)@.contains_key(action.action_index())
                    &&& P::amount(*cost) == old(self)@[action.action_index()]
                    &&& final(self)@ == old(self)@.insert(
                        action.action_index(),
                        P::amount(*final(cost)),
                    )
                },
                None => !old(self)@.contains_key(action.action_index()) && final(self)@ == old(self)@,
            },
    {
        let index: usize = action.index();
        self.get_mut_at(index)
    }


    /// Sets the underlying [`Pool::Quantity`] cost for `action` to the provided value.
    ///
    /// Unless you're building a new [`AbilityCosts`] struct, you likely want to use [`Self::get_mut`].
    pub fn set(&mut self, action: A, cost: P::Quantity) -> (costs: &mut Self)
        ensures
            costs@ == old(self)@.insert(action.action_index(), P::amount(cost)),
            *final(self) == *final(costs),
    {
        let index: usize = action.index();
        self.set_at(index, cost);
        self
    }

    /// Collects a `&mut Self` into a `Self`.
    ///
    /// Used to conclude the builder pattern.
    pub fn build(&mut self) -> (costs: Self)
        ensures
            costs@ == old(self)@,
            *final(self) == *old(self),
    {
        self.clone()
    }
}

/// Stores a resource pool and the associated costs for each ability.
///
/// Note that if your abilities do not cost the given resource,
/// you can still keep a [`Pool`] of it.
///
/// This is particularly common when working with life totals,
/// as you want the other functionality of pools (current, max, regen, depletion)
/// but often cannot spend it on abilities.
pub struct PoolBundle<A, P: Pool> {
    /// The resource pool used to pay for abilities
    pub pool: P,
    /// The cost of each ability in terms of this pool
    pub ability_costs: AbilityCosts<A, P>,
}

} // verus!
