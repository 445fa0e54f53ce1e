//! A premade resource pool for mana (aka MP).
use crate::pool::{clamp, pool_wf, saturate, saturated, MaxPoolLessThanMin, Pool, RegeneratingPool};
use vstd::prelude::*;
use vstd::std_specs::ops::{AddSpecImpl, SubSpecImpl};

verus! {

/// A quantity of mana, used to modify a [`ManaPool`].
///
/// This can be used for ability costs, mana regeneration and so on.
///
/// Sums and differences of quantities stop at the least and at the greatest quantity.
#[derive(Debug, Clone, Copy, PartialEq, Eq, Structural, PartialOrd, Ord)]
pub struct Mana(pub i64);

impl Default for Mana {
    /// No mana at all.
    fn default() -> (mana: Self)
        ensures
            mana == Mana(0),
    {
        Mana(0)
    }
}

impl AddSpecImpl<Mana> for Mana {
    open spec fn obeys_add_spec() -> bool {
        true
    }

    open spec fn add_req(self, rhs: Mana) -> bool {
        true
    }

    open spec fn add_spec(self, rhs: Mana) -> Mana {
        Mana(saturated(self.0 + rhs.0))
    }
}

impl core::ops::Add<Mana> for Mana {
    type Output = Mana;

    /// The sum of two quantities, as far as a quantity can hold it.
    fn add(self, rhs: Mana) -> Mana {
        Mana(saturate(self.0 as i128 + rhs.0 as i128))
    }
}

impl SubSpecImpl<Mana> for Mana {
    open spec fn obeys_sub_spec() -> bool {
        true
    }

    open spec fn sub_req(self, rhs: Mana) -> bool {
        true
    }

    open spec fn sub_spec(self, rhs: Mana) -> Mana {
        Mana(saturated(self.0 - rhs.0))
    }
}

impl core::ops::Sub<Mana> for Mana {
    type Output = Mana;

    /// The difference of two quantities, as far as a quantity can hold it.
    fn sub(self, rhs: Mana) -> Mana {
        Mana(saturate(self.0 as i128 - rhs.0 as i128))
    }
}

impl core::ops::AddAssign<Mana> for Mana {
    /// Adds `rhs`, as far as a quantity can hold the sum.
    fn add_assign(&mut self, rhs: Mana)
        ensures
            final(self).0 == saturated(old(self).0 + rhs.0),
    {
        self.0 = saturate(self.0 as i128 + rhs.0 as i128);
    }
}

impl core::ops::SubAssign<Mana> for Mana {
    /// Takes `rhs` away, as far as a quantity can hold the difference.
    fn sub_assign(&mut self, rhs: Mana)
        ensures
            final(self).0 == saturated(old(self).0 - rhs.0),
    {
        self.0 = saturate(self.0 as i128 - rhs.0 as i128);
    }
}

/// The amount of mana available to a unit.
/// Units must spend mana to cast spells according to their
/// [`AbilityCosts`](crate::pool::AbilityCosts).
#[derive(Debug, Clone, Copy, PartialEq, Eq)]
pub struct ManaPool {
    /// The current mana.
    current: Mana,
    /// The maximum mana that can be stored.
    max: Mana,
    /// The amount of mana regenerated per second.
    pub regen_per_second: Mana,
}

impl ManaPool {
    /// Creates a new [`ManaPool`] with the supplied settings.
    ///
    /// `current` cannot be greater than `max`, and neither of them can be negative.
    pub fn new(current: Mana, max: Mana, regen_per_second: Mana) -> (pool: Self)
        requires
            0 <= current.0 <= max.0,
        ensures
            pool_wf(&pool),
            pool.current_amount() == current.0,
            pool.max_amount() == max.0,
            pool.regen_amount() == regen_per_second.0,
    {
        ManaPool { current, max, regen_per_second }
    }

    /// Is the pool within its bounds? It always is, unless it was not made by [`ManaPool::new`].
    fn within_bounds(&self) -> (within: bool)
        ensures
            within == pool_wf(self),
    {
        0 <= self.current.0 && self.current.0 <= self.max.0
    }
}

impl Pool for ManaPool {
    type Quantity = Mana;

    open spec fn amount(quantity: Mana) -> int {
        quantity.0 as int
    }

    open spec fn min_amount() -> int {
        0
    }

    closed spec fn current_amount(&self) -> int {
        self.current.0 as int
    }

    closed spec fn max_amount(&self) -> int {
        self.max.0 as int
    }

    closed spec fn regen_amount(&self) -> int {
        self.regen_per_second.0 as int
    }

    fn raw(quantity: Mana) -> (amount: i64) {
        quantity.0
    }

    fn quantity(amount: i64) -> (quantity: Mana) {
        Mana(amount)
    }

    fn min() -> (min: Mana) {
        Mana(0)
    }

    fn current(&self) -> (current: Mana) {
        self.current
    }

    fn set_current(&mut self, new_quantity: Mana) -> (current: Mana) {
        let actual_value: Mana = if new_quantity.0 < 0 {
            Mana(0)
        } else if new_quantity.0 > self.max.0 {
            self.max
        } else {
            new_quantity
        };
        self.current = actual_value;
        self.current
    }

    fn max(&self) -> (max: Mana) {
        self.max
    }

    fn set_max(&mut self, new_max: Mana) -> (outcome: Result<(), MaxPoolLessThanMin>) {
        if new_max.0 < 0 {
            Err(MaxPoolLessThanMin)
        } else {
            self.max = new_max;
            if self.current.0 > new_max.0 {
                self.current = new_max;
            }
            Ok(())
        }
    }
}

impl RegeneratingPool for ManaPool {
    fn regen_per_second(&self) -> (regen_per_second: Mana) {
        self.regen_per_second
    }

    fn set_regen_per_second(&mut self, new_regen_per_second: Mana) {
        self.regen_per_second = new_regen_per_second;
    }
}

impl AddSpecImpl<Mana> for ManaPool {
    open spec fn obeys_add_spec() -> bool {
        true
    }

    open spec fn add_req(self, rhs: Mana) -> bool {
        pool_wf(&self)
    }

    closed spec fn add_spec(self, rhs: Mana) -> ManaPool {
        ManaPool {
            current: Mana(clamp(self.current.0 + rhs.0, 0, self.max.0 as int) as i64),
            ..self
        }
    }
}

impl core::ops::Add<Mana> for ManaPool {
    type Output = ManaPool;

    /// The pool after it gained `rhs`, within its bounds.
    fn add(self, rhs: Mana) -> (pool: ManaPool)
        ensures
            pool_wf(&pool),
            pool.current_amount() == clamp(self.current_amount() + rhs.0, 0, self.max_amount()),
            pool.max_amount() == self.max_amount(),
            pool.regen_amount() == self.regen_amount(),
    {
        let mut pool = self;
        pool.replenish(rhs);
        pool
    }
}

impl SubSpecImpl<Mana> for ManaPool {
    open spec fn obeys_sub_spec() -> bool {
        true
    }

    open spec fn sub_req(self, rhs: Mana) -> bool {
        pool_wf(&self)
    }

    closed spec fn sub_spec(self, rhs: Mana) -> ManaPool {
        ManaPool {
            current: Mana(clamp(self.current.0 - rhs.0, 0, self.max.0 as int) as i64),
            ..self
        }
    }
}

impl core::ops::Sub<Mana> for ManaPool {
    type Output = ManaPool;

    /// The pool after it lost `rhs`, within its bounds.
    fn sub(self, rhs: Mana) -> (pool: ManaPool)
        ensures
            pool_wf(&pool),
            pool.current_amount() == clamp(self.current_amount() - rhs.0, 0, self.max_amount()),
            pool.max_amount() == self.max_amount(),
            pool.regen_amount() == self.regen_amount(),
    {
        let mut pool = self;
        let new_current: i64 = saturate(pool.current.0 as i128 - rhs.0 as i128);
        pool.set_current(Mana(new_current));
        pool
    }
}

impl core::ops::AddAssign<Mana> for ManaPool {
    /// The pool gains `rhs`, within its bounds.
    fn add_assign(&mut self, rhs: Mana)
        ensures
            pool_wf(old(self)) ==> {
                &&& pool_wf(final(self))
                &&& final(self).current_amount() == clamp(
                    old(self).current_amount() + rhs.0,
                    0,
                    old(self).max_amount(),
                )
                &&& final(self).max_amount() == old(self).max_amount()
                &&& final(self).regen_amount() == old(self).regen_amount()
            },
    {
        if self.within_bounds() {
            self.replenish(rhs);
        }
    }
}

impl core::ops::SubAssign<Mana> for ManaPool {
    /// The pool loses `rhs`, within its bounds.
    fn sub_assign(&mut self, rhs: Mana)
        ensures
            pool_wf(old(self)) ==> {
                &&& pool_wf(final(self))
                &&& final(self).current_amount() == clamp(
                    old(self).current_amount() - rhs.0,
                    0,
                    old(self).max_amount(),
                )
                &&& final(self).max_amount() == old(self).max_amount()
                &&& final(self).regen_amount() == old(self).regen_amount()
            },
    {
        if self.within_bounds() {
            let new_current: i64 = saturate(self.current.0 as i128 - rhs.0 as i128);
            self.set_current(Mana(new_current));
        }
    }
}

} // verus!
