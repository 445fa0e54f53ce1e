//! What happens to the state of one owner in each step of the simulation.
//!
//! Whoever schedules the simulation calls these once per step and per owner of state,
//! with the time that has passed since the step before, and before any ability is used.
use crate::charges::ChargeState;
use crate::cooldown::CooldownState;
use crate::pool::{clamp, pool_wf, regenerated, Pool, RegeneratingPool};
use crate::time::duration_nanos;
use core::time::Duration;
use vstd::prelude::*;

verus! {

/// Advances the [`CooldownState`] of one owner, if it has one.
///
/// Its cooldowns replenish its charges, if it has any. Without cooldowns nothing happens:
/// charges do not change by themselves.
pub fn tick_cooldowns<A>(
    cooldowns: Option<&mut CooldownState<A>>,
    charges: Option<&mut ChargeState<A>>,
    delta_time: Duration,
)
    requires
        cooldowns matches Some(cooldowns) ==> cooldowns.wf(),
        charges matches Some(charges) ==> charges.wf(),
    ensures
        cooldowns matches Some(cooldowns) ==> {
            &&& final(cooldowns).wf()
            &&& final(cooldowns)@ == cooldowns@.tick(
                duration_nanos(delta_time),
                match charges {
                    Some(charges) => Some(charges@),
                    None => None,
                },
            )
        },
        charges matches Some(charges) ==> {
            &&& final(charges).wf()
            &&& final(charges)@ == match cooldowns {
                Some(cooldowns) => cooldowns@.tick_charges(duration_nanos(delta_time), charges@),
                None => charges@,
            }
        },
{
    // Only tick the cooldowns if they exist
    match cooldowns {
        Some(cooldowns) => {
            cooldowns.tick(delta_time, charges);
        },
        None => {},
    }
}

/// Regenerates the resource [`Pool`] of one owner, if it has one, based on the elapsed time.
pub fn regenerate_resource_pool<P: RegeneratingPool>(pool: Option<&mut P>, delta_time: Duration)
    requires
        pool matches Some(pool) ==> pool_wf(pool),
    ensures
        pool matches Some(pool) ==> {
            &&& pool_wf(final(pool))
            &&& final(pool).current_amount() == clamp(
                pool.current_amount() + regenerated(pool.regen_amount(), duration_nanos(delta_time)),
                P::min_amount(),
                pool.max_amount(),
            )
            &&& final(pool).max_amount() == pool.max_amount()
            &&& final(pool).regen_amount() == pool.regen_amount()
        },
{
    match pool {
        Some(pool) => {
            pool.regenerate(delta_time);
        },
        None => {},
    }
}

} // verus!
