//! Gating of discrete, named actions ("abilities"): how often they can be used, how long they
//! take to recover, and what they cost.
//!
//! Four independent mechanisms are provided, and one combinator that composes them:
//!
//! - [`charges`]: a limited number of uses per action.
//! - [`cooldown`]: a recovery timer per action, plus an optional timer shared by all actions.
//! - [`pool`]: a bounded, regenerating reservoir of some resource, and per-action costs.
//! - [`Abilitylike`]: the `ready` / `trigger` decision over all of the above.
//!
//! Every executable function carries a contract over a mathematical model of its arguments.
//! The contracts are machine-checked, except for those of the few functions that hand a
//! call on to a [`Duration`](core::time::Duration) or to a hash table in place: these say
//! what the call is trusted to do. They are found in [`time`] and next to the tables.
pub use crate::ability_state::{
    AbilityStateItem, AbilityStateReadOnlyItem, ActionState, ButtonState, NullPool,
};
use crate::charges::{ChargeState, Charges, ChargesView};
use crate::cooldown::{Cooldown, CooldownState, CooldownStateView, CooldownView};
use crate::pool::{clamp, cost_of, pool_available, pool_wf, AbilityCosts, Pool};
use vstd::prelude::*;

pub mod ability_state;
pub mod charges;
pub mod cooldown;
mod cooldown_map;
mod hash_map;
pub mod pool;
pub mod prelude;
pub mod premade_pools;
pub mod systems;
pub mod time;

verus! {

/// Explains why an ability could not be used.
///
/// The variants are declared in order of priority: when several of them apply to one request,
/// the one declared first is reported.
#[derive(Debug, Clone, Copy, PartialEq, Eq, Structural, PartialOrd, Ord)]
pub enum CannotUseAbility {
    /// The action was not pressed
    NotPressed,
    /// There were no charges available for this ability
    NoCharges,
    /// The cooldown of this ability was not ready
    OnCooldown,
    /// The global cooldown shared by all abilities was not ready
    OnGlobalCooldown,
    /// Not enough resources are available in the corresponding pool
    PoolInsufficient,
}

impl CannotUseAbility {
    /// The rank of this error: a lower rank is reported in preference to a higher one.
    pub open spec fn priority(self) -> nat {
        match self {
            CannotUseAbility::NotPressed => 0,
            CannotUseAbility::NoCharges => 1,
            CannotUseAbility::OnCooldown => 2,
            CannotUseAbility::OnGlobalCooldown => 3,
            CannotUseAbility::PoolInsufficient => 4,
        }
    }

    /// A human-readable explanation of this error.
    pub fn message(&self) -> (text: &'static str)
        ensures
            text@ == match *self {
                CannotUseAbility::NotPressed => "The ability was not pressed."@,
                CannotUseAbility::NoCharges => "No charges available."@,
                CannotUseAbility::OnCooldown => "Cooldown not ready."@,
                CannotUseAbility::OnGlobalCooldown => "Global cooldown not ready."@,
                CannotUseAbility::PoolInsufficient => "Not enough resources."@,
            },
    {
        match self {
            CannotUseAbility::NotPressed => "The ability was not pressed.",
            CannotUseAbility::NoCharges => "No charges available.",
            CannotUseAbility::OnCooldown => "Cooldown not ready.",
            CannotUseAbility::OnGlobalCooldown => "Global cooldown not ready.",
            CannotUseAbility::PoolInsufficient => "Not enough resources.",
        }
    }
}

/// What a readiness check reports for an ability with these charges, this cooldown, a pool that
/// holds `pool` and this `cost`, as far as each of them exists.
///
/// The first of these that applies decides alone:
/// 1. With charges, the ability is ready exactly if one is left.
/// 2. With a cooldown, the ability is ready exactly if the cooldown is.
/// 3. With a pool and a cost, the ability is ready exactly if the pool can pay the cost.
/// 4. Otherwise the ability is ready.
pub open spec fn ability_readiness(
    charges: Option<ChargesView>,
    cooldown: Option<CooldownView>,
    pool: Option<int>,
    cost: Option<int>,
) -> Result<(), CannotUseAbility> {
    match charges {
        Some(charges) => charges.expend_outcome(),
        None => match cooldown {
            Some(cooldown) => cooldown.ready(),
            None => pool_readiness(pool, cost),
        },
    }
}

/// What a pool that holds `pool` reports when `cost` is asked of it, as far as both exist:
/// without a pool or without a cost, nothing is in the way.
pub open spec fn pool_readiness(pool: Option<int>, cost: Option<int>) -> Result<
    (),
    CannotUseAbility,
> {
    match (pool, cost) {
        (Some(current), Some(cost)) => pool_available(current, cost),
        _ => Ok(()),
    }
}

/// The content of a pool that holds `current` after a successful use at this `cost`:
/// the cost is taken if there is one and the pool can pay it, else the pool keeps what it has.
pub open spec fn pool_after_use(current: int, min: int, max: int, cost: Option<int>) -> int {
    match cost {
        Some(cost) => if current >= cost {
            clamp(current - cost, min, max)
        } else {
            current
        },
        None => current,
    }
}

/// Checks if a [`Charges`], [`Cooldown`] pair associated with an ability is ready to use.
///
/// If this ability has charges, at least one charge must be available.
/// If this ability has a cooldown but no charges, the cooldown must be ready.
/// If it has neither, but a pool and a cost, the pool must hold the cost.
/// Otherwise, returns [`Ok(())`].
///
/// If you don't have an associated resource pool to check, pass in
/// [`NullPool`](crate::ability_state::NullPool) as `P`.
pub fn ability_ready<P: Pool>(
    charges: Option<&Charges>,
    cooldown: Option<&Cooldown>,
    pool: Option<&P>,
    cost: Option<P::Quantity>,
) -> (outcome: Result<(), CannotUseAbility>)
    ensures
        outcome == ability_readiness(
            match charges {
                Some(charges) => Some(charges@),
                None => None,
            },
            match cooldown {
                Some(cooldown) => Some(cooldown@),
                None => None,
            },
            match pool {
                Some(pool) => Some(pool.current_amount()),
                None => None,
            },
            match cost {
                Some(cost) => Some(P::amount(cost)),
                None => None,
            },
        ),
{
    match charges {
        Some(charges) => {
            if charges.charges() > 0 {
                Ok(())
            } else {
                Err(CannotUseAbility::NoCharges)
            }
        },
        None => match cooldown {
            Some(cooldown) => cooldown.ready(),
            None => match pool {
                Some(pool) => match cost {
                    Some(cost) => pool.available(cost),
                    None => Ok(()),
                },
                None => Ok(()),
            },
        },
    }
}

/// Triggers an ability, depleting a charge if available.
///
/// The ability is used only if it is ready, as [`ability_ready`] tells; if it is not,
/// the error is returned and nothing changes.
/// If `charges` is [`None`], this will be based off the [`Cooldown`] alone, triggering it if possible.
/// Whatever gated the ability, its `cost` is taken from the `pool` as well, if both exist
/// and the pool holds that much.
///
/// If you don't have an associated resource pool to check, pass in
/// [`NullPool`](crate::ability_state::NullPool) as `P`.
pub fn trigger_ability<P: Pool>(
    charges: Option<&mut Charges>,
    cooldown: Option<&mut Cooldown>,
    pool: Option<&mut P>,
    cost: Option<P::Quantity>,
) -> (outcome: Result<(), CannotUseAbility>)
    requires
        charges matches Some(charges) ==> charges.wf(),
        cooldown matches Some(cooldown) ==> cooldown.wf(),
        pool matches Some(pool) ==> pool_wf(pool),
    ensures
        outcome == ability_readiness(
            match charges {
                Some(charges) => Some(charges@),
                None => None,
            },
            match cooldown {
                Some(cooldown) => Some(cooldown@),
                None => None,
            },
            match pool {
                Some(pool) => Some(pool.current_amount()),
                None => None,
            },
            match cost {
                Some(cost) => Some(P::amount(cost)),
                None => None,
            },
        ),
        charges matches Some(charges) ==> {
            &&& final(charges).wf()
            &&& outcome is Ok ==> final(charges)@ == charges@.expend()
            &&& outcome is Err ==> *final(charges) == *charges
        },
        cooldown matches Some(cooldown) ==> {
            &&& final(cooldown).wf()
            &&& outcome is Ok && charges is None ==> final(cooldown)@ == cooldown@.trigger()
            &&& outcome is Err || charges is Some ==> *final(cooldown) == *cooldown
        },
        pool matches Some(pool) ==> {
            &&& pool_wf(final(pool))
            &&& final(pool).max_amount() == pool.max_amount()
            &&& final(pool).regen_amount() == pool.regen_amount()
            &&& outcome is Ok ==> final(pool).current_amount() == pool_after_use(
                pool.current_amount(),
                P::min_amount(),
                pool.max_amount(),
                match cost {
                    Some(cost) => Some(P::amount(cost)),
                    None => None,
                },
            )
            &&& outcome is Err ==> *final(pool) == *pool
        },
{
    let pool_outcome: Result<(), CannotUseAbility> = match &pool {
        Some(pool) => match cost {
            Some(cost) => pool.available(cost),
            None => Ok(()),
        },
        None => Ok(()),
    };
    match charges {
        Some(charges) => {
            match charges.expend() {
                Ok(_) => {},
                Err(error) => {
                    return Err(error);
                },
            }
        },
        None => match cooldown {
            Some(cooldown) => {
                match cooldown.trigger() {
                    Ok(_) => {},
                    Err(error) => {
                        return Err(error);
                    },
                }
            },
            None => {
                match pool_outcome {
                    Ok(_) => {},
                    Err(error) => {
                        return Err(error);
                    },
                }
            },
        },
    }
    match pool {
        Some(pool) => match cost {
            Some(cost) => {
                let _ = pool.expend(cost);
            },
            None => {},
        },
        None => {},
    }
    Ok(())
}

/// What a readiness check reports for the action stored under `index`, given the charges and
/// cooldowns of all actions, a pool that holds `pool` and the costs of all actions, as far as
/// the last two exist.
///
/// The first of these that applies decides alone:
/// 1. If the action has charges, it is ready exactly if one is left.
/// 2. If the action has a cooldown, it is ready exactly if that cooldown and the global
///    cooldown are both ready. Where neither is, the action's own cooldown is reported.
/// 3. If there is a pool and the action has a cost, it is ready exactly if the pool can pay.
/// 4. Otherwise the action is ready.
pub open spec fn readiness(
    index: usize,
    charges: Map<usize, ChargesView>,
    cooldowns: CooldownStateView,
    pool: Option<int>,
    costs: Option<Map<usize, int>>,
) -> Result<(), CannotUseAbility> {
    if charges.contains_key(index) {
        charges[index].expend_outcome()
    } else if cooldowns.cooldowns.contains_key(index) {
        if cooldowns.cooldowns[index].ready() is Err {
            cooldowns.cooldowns[index].ready()
        } else {
            cooldowns.gcd_ready()
        }
    } else {
        pool_readiness(pool, action_cost(costs, index))
    }
}

/// The cost of the action stored under `index`, if there are costs and it has one.
pub open spec fn action_cost(costs: Option<Map<usize, int>>, index: usize) -> Option<int> {
    match costs {
        Some(costs) => cost_of(costs, index),
        None => None,
    }
}

/// The charges of all actions after a successful use of the action stored under `index`:
/// one charge of the action is spent, if it has charges.
pub open spec fn charges_after_use(charges: Map<usize, ChargesView>, index: usize) -> Map<
    usize,
    ChargesView,
> {
    if charges.contains_key(index) {
        charges.insert(index, charges[index].expend())
    } else {
        charges
    }
}

/// The cooldowns of all actions after a successful use of the action stored under `index`:
/// the cooldown of the action is started over, unless the action has charges.
/// The global cooldown is left alone.
pub open spec fn cooldowns_after_use(
    cooldowns: CooldownStateView,
    uses_charges: bool,
    index: usize,
) -> CooldownStateView {
    if uses_charges {
        cooldowns
    } else {
        cooldowns.trigger_own(index)
    }
}

/// A discrete, named capability whose use is gated by charges, cooldowns and costs.
///
/// Actions never own state: they are keys under which the stores of this crate keep it.
/// Two actions are the same action exactly when their indices are equal.
///
/// Generally, these types will be very small (often data-less) enums.
///
/// An implementation in code that is not verified writes [`Abilitylike::action_index`] as
/// the same expression as [`Abilitylike::index`]: what is proved of the stores holds for
/// an action type as far as its `index` returns the same number for the same action.
pub trait Abilitylike: Sized {
    /// The key under which the state of this action is stored.
    spec fn action_index(&self) -> usize;

    /// Computes the key under which the state of this action is stored.
    fn index(&self) -> (index: usize)
        ensures
            index == self.action_index(),
    ;

    /// Is this ability ready?
    ///
    /// If this ability has charges, at least one charge must be available.
    /// If this ability has a cooldown but no charges, the cooldown must be ready,
    /// and so must the global cooldown.
    /// If it has neither, but a cost in a pool, the pool must hold the cost.
    /// Otherwise, returns [`Ok(())`].
    fn ready<P: Pool>(
        &self,
        charges: &ChargeState<Self>,
        cooldowns: &CooldownState<Self>,
        maybe_pool: Option<&P>,
        maybe_costs: Option<&AbilityCosts<Self, P>>,
    ) -> (outcome: Result<(), CannotUseAbility>)
        ensures
            outcome == readiness(
                self.action_index(),
                charges@,
                cooldowns@,
                match maybe_pool {
                    Some(pool) => Some(pool.current_amount()),
                    None => None,
                },
                match maybe_costs {
                    Some(costs) => Some(costs@),
                    None => None,
                },
            ),
    {
        let index: usize = self.index();
        let charges: Option<&Charges> = charges.get_at(index);
        let cooldown: Option<&Cooldown> = cooldowns.get_at(index);
        let cost: Option<P::Quantity> = match maybe_costs {
            Some(costs) => match costs.get_at(index) {
                Some(cost) => Some(*cost),
                None => None,
            },
            None => None,
        };
        let per_action: bool = charges.is_none() && cooldown.is_some();
        match ability_ready(charges, cooldown, maybe_pool, cost) {
            Ok(_) => if per_action {
                cooldowns.gcd_ready()
            } else {
                Ok(())
            },
            Err(error) => Err(error),
        }
    }

    /// Triggers this ability, depleting a charge if available.
    ///
    /// Abilities can only be used if they are ready: if this one is not, the error is
    /// returned and nothing changes.
    /// Otherwise a charge is spent, if the ability has charges; if it has none, its cooldown
    /// is started over, if it has one. Whatever gated the ability, its cost is taken from the
    /// pool as well, if both exist and the pool holds that much.
    /// The global cooldown is not triggered here: [`CooldownState::trigger`] does that.
    fn trigger<P: Pool>(
        &self,
        charges: &mut ChargeState<Self>,
        cooldowns: &mut CooldownState<Self>,
        maybe_pool: Option<&mut P>,
        maybe_costs: Option<&AbilityCosts<Self, P>>,
    ) -> (outcome: Result<(), CannotUseAbility>)
        requires
            old(charges).wf(),
            old(cooldowns).wf(),
            maybe_pool matches Some(pool) ==> pool_wf(pool),
        ensures
            final(charges).wf(),
            final(cooldowns).wf(),
            outcome == readiness(
                self.action_index(),
                old(charges)@,
                old(cooldowns)@,
                match maybe_pool {
                    Some(pool) => Some(pool.current_amount()),
                    None => None,
                },
                match maybe_costs {
                    Some(costs) => Some(costs@),
                    None => None,
                },
            ),
            outcome is Ok ==> {
                &&& final(charges)@ == charges_after_use(old(charges)@, self.action_index())
                &&& final(cooldowns)@ == cooldowns_after_use(
                    old(cooldowns)@,
                    old(charges)@.contains_key(self.action_index()),
                    self.action_index(),
                )
            },
            outcome is Err ==> final(charges)@ == old(charges)@ && final(cooldowns)@ == old(
                cooldowns,
            )@,
            maybe_pool matches Some(pool) ==> {
                &&& pool_wf(final(pool))
                &&& final(pool).max_amount() == pool.max_amount()
                &&& final(pool).regen_amount() == pool.regen_amount()
                &&& outcome is Ok ==> final(pool).current_amount() == pool_after_use(
                    pool.current_amount(),
                    P::min_amount(),
                    pool.max_amount(),
                    action_cost(
                        match maybe_costs {
                            Some(costs) => Some(costs@),
                            None => None,
                        },
                        self.action_index(),
                    ),
                )
                &&& outcome is Err ==> *final(pool) == *pool
            },
    {
        let index: usize = self.index();
        let cost: Option<P::Quantity> = match maybe_costs {
            Some(costs) => match costs.get_at(index) {
                Some(cost) => Some(*cost),
                None => None,
            },
            None => None,
        };
        let gcd_outcome: Result<(), CannotUseAbility> = cooldowns.gcd_ready();
        let has_charges: bool = charges.get_at(index).is_some();
        if !has_charges {
            match cooldowns.get_at(index) {
                Some(cooldown) => {
                    match cooldown.ready() {
                        Ok(_) => match gcd_outcome {
                            Ok(_) => {},
                            Err(error) => {
                                return Err(error);
                            },
                        },
                        Err(error) => {
                            return Err(error);
                        },
                    }
                },
                None => {},
            }
        }
        let own_charges: Option<&mut Charges> = charges.get_mut_at(index);
        let own_cooldown: Option<&mut Cooldown> = cooldowns.get_mut_at(index);
        let outcome = trigger_ability(own_charges, own_cooldown, maybe_pool, cost);
        proof {
            assert(outcome is Ok ==> charges@ =~= charges_after_use(old(charges)@, index));
            assert(outcome is Err ==> charges@ =~= old(charges)@);
            assert(outcome is Ok ==> cooldowns@.cooldowns =~= cooldowns_after_use(
                old(cooldowns)@,
                old(charges)@.contains_key(index),
                index,
            ).cooldowns);
            assert(outcome is Err ==> cooldowns@.cooldowns =~= old(cooldowns)@.cooldowns);
        }
        outcome
    }

    /// Triggers this ability, depleting a charge if available.
    ///
    /// Abilities can only be used if they are ready.
    ///
    /// Calls [`Abilitylike::trigger`], passing in [`None`] for both the pools or costs.
    /// This is useful when you don't have any pools or costs to check,
    /// or when multiple distinct pools may be needed.
    fn trigger_no_costs(
        &self,
        charges: &mut ChargeState<Self>,
        cooldowns: &mut CooldownState<Self>,
    ) -> (outcome: Result<(), CannotUseAbility>)
        requires
            old(charges).wf(),
            old(cooldowns).wf(),
        ensures
            final(charges).wf(),
            final(cooldowns).wf(),
            outcome == readiness(self.action_index(), old(charges)@, old(cooldowns)@, None, None),
            outcome is Ok ==> {
                &&& final(charges)@ == charges_after_use(old(charges)@, self.action_index())
                &&& final(cooldowns)@ == cooldowns_after_use(
                    old(cooldowns)@,
                    old(charges)@.contains_key(self.action_index()),
                    self.action_index(),
                )
            },
            outcome is Err ==> final(charges)@ == old(charges)@ && final(cooldowns)@ == old(
                cooldowns,
            )@,
    {
        self.trigger::<NullPool>(charges, cooldowns, None, None)
    }

    /// Is this ability ready?
    ///
    /// If this ability has charges, at least one charge must be available.
    /// If this ability has a cooldown but no charges, the cooldown must be ready,
    /// and so must the global cooldown.
    /// Otherwise, returns [`Ok(())`].
    ///
    /// Calls [`Abilitylike::ready`], passing in [`None`] for both the pools or costs.
    /// This is useful when you don't have any pools or costs to check,
    /// or when multiple distinct pools may be needed.
    fn ready_no_costs(&self, charges: &ChargeState<Self>, cooldowns: &CooldownState<Self>) -> (outcome:
        Result<(), CannotUseAbility>)
        ensures
            outcome == readiness(self.action_index(), charges@, cooldowns@, None, None),
    {
        self.ready::<NullPool>(charges, cooldowns, None, None)
    }
}

impl Abilitylike for usize {
    open spec fn action_index(&self) -> usize {
        *self
    }

    /// A bare index is the action that is stored under it.
    fn index(&self) -> (index: usize) {
        *self
    }
}

/// The state that allows the [`Abilitylike`] actions of one entity to be managed.
///
/// If you would like to track resource costs for your abilities, combine this with a
/// [`PoolBundle`](crate::pool::PoolBundle).
#[derive(Debug)]
pub struct AbilitiesBundle<A> {
    /// The [`CooldownState`] of the entity
    pub cooldowns: CooldownState<A>,
    /// The [`ChargeState`] of the entity
    pub charges: ChargeState<A>,
}

impl<A> Default for AbilitiesBundle<A> {
    /// No action has a cooldown or charges.
    fn default() -> (bundle: Self)
        ensures
            bundle.cooldowns.wf(),
            bundle.charges.wf(),
            bundle.cooldowns@ == (CooldownStateView { cooldowns: Map::empty(), global_cooldown: None }),
            bundle.charges@ == Map::<usize, ChargesView>::empty(),
    {
        AbilitiesBundle { cooldowns: CooldownState::default(), charges: ChargeState::default() }
    }
}

impl<A> Clone for AbilitiesBundle<A> {
    fn clone(&self) -> (bundle: Self)
        ensures
            bundle.cooldowns@ == self.cooldowns@,
            bundle.charges@ == self.charges@,
    {
        AbilitiesBundle { cooldowns: self.cooldowns.clone(), charges: self.charges.clone() }
    }
}

} // verus!
