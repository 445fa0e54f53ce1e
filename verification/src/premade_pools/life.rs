//! A premade resource pool for life (aka health, hit points or HP).
use crate::pool::{clamp, pool_wf, saturate, saturated, MaxPoolLessThanMin, Pool, RegeneratingPool};
use vstd::prelude::*;
use vstd::std_specs::ops::{AddSpecImpl, SubSpecImpl};

verus! {

/// A quantity of life, used to modify a [`LifePool`].
///
/// This can be used for damage computations, life regeneration, healing and so on.
///
/// Sums and differences of quantities stop at the least and at the greatest quantity.
#[derive(Debug, Clone, Copy, PartialEq, Eq, Structural, PartialOrd, Ord)]
pub struct Life(pub i64);

impl Default for Life {
    /// No life at all.
    fn default() -> (life: Self)
        ensures
            life == Life(0),
    {
        Life(0)
    }
}

impl AddSpecImpl<Life> for Life {
    open spec fn obeys_add_spec() -> bool {
        true
    }

    open spec fn add_req(self, rhs: Life) -> bool {
        true
    }

    open spec fn add_spec(self, rhs: Life) -> Life {
        Life(saturated(self.0 + rhs.0))
    }
}

impl core::ops::Add<Life> for Life {
    type Output = Life;

    /// The sum of two quantities, as far as a quantity can hold it.
    fn add(self, rhs: Life) -> Life {
        Life(saturate(self.0 as i128 + rhs.0 as i128))
    }
}

impl SubSpecImpl<Life> for Life {
    open spec fn obeys_sub_spec() -> bool {
        true
    }

    open spec fn sub_req(self, rhs: Life) -> bool {
        true
    }

    open spec fn sub_spec(self, rhs: Life) -> Life {
        Life(saturated(self.0 - rhs.0))
    }
}

impl core::ops::Sub<Life> for Life {
    type Output = Life;

    /// The difference of two quantities, as far as a quantity can hold it.
    fn sub(self, rhs: Life) -> Life {
        Life(saturate(self.0 as i128 - rhs.0 as i128))
    }
}

impl core::ops::AddAssign<Life> for Life {
    /// Adds `rhs`, as far as a quantity can hold the sum.
    fn add_assign(&mut self, rhs: Life)
        ensures
            final(self).0 == saturated(old(self).0 + rhs.0),
    {
        self.0 = saturate(self.0 as i128 + rhs.0 as i128);
    }
}

impl core::ops::SubAssign<Life> for Life {
    /// Takes `rhs` away, as far as a quantity can hold the difference.
    fn sub_assign(&mut self, rhs: Life)
        ensures
            final(self).0 == saturated(old(self).0 - rhs.0),
    {
        self.0 = saturate(self.0 as i128 - rhs.0 as i128);
    }
}

/// The amount of life available to a unit.
/// If they lose it all, they die or pass out.
#[derive(Debug, Clone, Copy, PartialEq, Eq)]
pub struct LifePool {
    /// The current life.
    current: Life,
    /// The maximum life that can be stored.
    max: Life,
    /// The amount of life regenerated per second.
    pub regen_per_second: Life,
}

impl LifePool {
    /// Creates a new [`LifePool`] with the supplied settings.
    ///
    /// `current` cannot be greater than `max`, and neither of them can be negative.
    pub fn new(current: Life, max: Life, regen_per_second: Life) -> (pool: Self)
        requires
            0 <= current.0 <= max.0,
        ensures
            pool_wf(&pool),
            pool.current_amount() == current.0,
            pool.max_amount() == max.0,
            pool.regen_amount() == regen_per_second.0,
    {
        LifePool { current, max, regen_per_second }
    }

    /// Is the pool within its bounds? It always is, unless it was not made by [`LifePool::new`].
    fn within_bounds(&self) -> (within: bool)
        ensures
            within == pool_wf(self),
    {
        0 <= self.current.0 && self.current.0 <= self.max.0
    }
}

impl Pool for LifePool {
    type Quantity = Life;

    open spec fn amount(quantity: Life) -> int {
        quantity.0 as int
    }

    open spec fn min_amount() -> int {
        0
    }

    closed spec fn current_amount(&self) -> int {
        self.current.0 as int
    }

    closed spec fn max_amount(&self) -> int {
        self.max.0 as int
    }

    closed spec fn regen_amount(&self) -> int {
        self.regen_per_second.0 as int
    }

    fn raw(quantity: Life) -> (amount: i64) {
        quantity.0
    }

    fn quantity(amount: i64) -> (quantity: Life) {
        Life(amount)
    }

    fn min() -> (min: Life) {
        Life(0)
    }

    fn current(&self) -> (current: Life) {
        self.current
    }

    fn set_current(&mut self, new_quantity: Life) -> (current: Life) {
        let actual_value: Life = if new_quantity.0 < 0 {
            Life(0)
        } else if new_quantity.0 > self.max.0 {
            self.max
        } else {
            new_quantity
        };
        self.current = actual_value;
        self.current
    }

    fn max(&self) -> (max: Life) {
        self.max
    }

    fn set_max(&mut self, new_max: Life) -> (outcome: Result<(), MaxPoolLessThanMin>) {
        if new_max.0 < 0 {
            Err(MaxPoolLessThanMin)
        } else {
            self.max = new_max;
            if self.current.0 > new_max.0 {
                self.current = new_max;
            }
            Ok(())
        }
    }
}

impl RegeneratingPool for LifePool {
    fn regen_per_second(&self) -> (regen_per_second: Life) {
        self.regen_per_second
    }

    fn set_regen_per_second(&mut self, new_regen_per_second: Life) {
        self.regen_per_second = new_regen_per_second;
    }
}

impl AddSpecImpl<Life> for LifePool {
    open spec fn obeys_add_spec() -> bool {
        true
    }

    open spec fn add_req(self, rhs: Life) -> bool {
        pool_wf(&self)
    }

    closed spec fn add_spec(self, rhs: Life) -> LifePool {
        LifePool {
            current: Life(clamp(self.current.0 + rhs.0, 0, self.max.0 as int) as i64),
            ..self
        }
    }
}

impl core::ops::Add<Life> for LifePool {
    type Output = LifePool;

    /// The pool after it gained `rhs`, within its bounds.
    fn add(self, rhs: Life) -> (pool: LifePool)
        ensures
            pool_wf(&pool),
            pool.current_amount() == clamp(self.current_amount() + rhs.0, 0, self.max_amount()),
            pool.max_amount() == self.max_amount(),
            pool.regen_amount() == self.regen_amount(),
    {
        let mut pool = self;
        pool.replenish(rhs);
        pool
    }
}

impl SubSpecImpl<Life> for LifePool {
    open spec fn obeys_sub_spec() -> bool {
        true
    }

    open spec fn sub_req(self, rhs: Life) -> bool {
        pool_wf(&self)
    }

    closed spec fn sub_spec(self, rhs: Life) -> LifePool {
        LifePool {
            current: Life(clamp(self.current.0 - rhs.0, 0, self.max.0 as int) as i64),
            ..self
        }
    }
}

impl core::ops::Sub<Life> for LifePool {
    type Output = LifePool;

    /// The pool after it lost `rhs`, within its bounds.
    fn sub(self, rhs: Life) -> (pool: LifePool)
        ensures
            pool_wf(&pool),
            pool.current_amount() == clamp(self.current_amount() - rhs.0, 0, self.max_amount()),
            pool.max_amount() == self.max_amount(),
            pool.regen_amount() == self.regen_amount(),
    {
        let mut pool = self;
        let new_current: i64 = saturate(pool.current.0 as i128 - rhs.0 as i128);
        pool.set_current(Life(new_current));
        pool
    }
}

impl core::ops::AddAssign<Life> for LifePool {
    /// The pool gains `rhs`, within its bounds.
    fn add_assign(&mut self, rhs: Life)
        ensures
            pool_wf(old(self)) ==> {
                &&& pool_wf(final(self))
                &&& final(self).current_amount() == clamp(
                    old(self).current_amount() + rhs.0,
                    0,
                    old(self).max_amount(),
                )
                &&& final(self).max_amount() == old(self).max_amount()
                &&& final(self).regen_amount() == old(self).regen_amount()
            },
    {
        if self.within_bounds() {
            self.replenish(rhs);
        }
    }
}

impl core::ops::SubAssign<Life> for LifePool {
    /// The pool loses `rhs`, within its bounds.
    fn sub_assign(&mut self, rhs: Life)
        ensures
            pool_wf(old(self)) ==> {
                &&& pool_wf(final(self))
                &&& final(self).current_amount() == clamp(
                    old(self).current_amount() - rhs.0,
                    0,
                    old(self).max_amount(),
                )
                &&& final(self).max_amount() == old(self).max_amount()
                &&& final(self).regen_amount() == old(self).regen_amount()
            },
    {
        if self.within_bounds() {
            let new_current: i64 = saturate(self.current.0 as i128 - rhs.0 as i128);
            self.set_current(Life(new_current));
        }
    }
}

} // verus!
