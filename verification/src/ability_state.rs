//! Everything that decides whether one entity can use an ability, in one place.
use crate::charges::{ChargeState, ChargesView};
use crate::cooldown::{CooldownState, CooldownStateView};
use crate::pool::{pool_wf, AbilityCosts, MaxPoolLessThanMin, Pool, RegeneratingPool};
use crate::{
    action_cost, charges_after_use, cooldowns_after_use, pool_after_use, pool_readiness, readiness,
};
use crate::{Abilitylike, CannotUseAbility};
use core::marker::PhantomData;
use std::collections::HashMap;
use vstd::prelude::*;

verus! {

broadcast use vstd::std_specs::hash::group_hash_axioms;

/// A pool that nobody can create.
///
/// It stands in where a [`Pool`] type has to be named and no pool is meant:
/// pass [`None`] for the pool and for the costs.
#[derive(Debug)]
pub struct NullPool {
    current: i64,
    max: i64,
    regen_per_second: i64,
}

impl Pool for NullPool {
    type Quantity = i64;

    open spec fn amount(quantity: i64) -> int {
        quantity as int
    }

    open spec fn min_amount() -> int {
        0
    }

    closed spec fn current_amount(&self) -> int {
        self.current as int
    }

    closed spec fn max_amount(&self) -> int {
        self.max as int
    }

    closed spec fn regen_amount(&self) -> int {
        self.regen_per_second as int
    }

    fn raw(quantity: i64) -> (amount: i64) {
        quantity
    }

    fn quantity(amount: i64) -> (quantity: i64) {
        amount
    }

    fn min() -> (min: i64) {
        0
    }

    fn current(&self) -> (current: i64) {
        self.current
    }

    fn set_current(&mut self, new_quantity: i64) -> (current: i64) {
        self.current = if new_quantity < 0 {
            0
        } else if new_quantity > self.max {
            self.max
        } else {
            new_quantity
        };
        self.current
    }

    fn max(&self) -> (max: i64) {
        self.max
    }

    fn set_max(&mut self, new_max: i64) -> (outcome: Result<(), MaxPoolLessThanMin>) {
        if new_max < 0 {
            Err(MaxPoolLessThanMin)
        } else {
            self.max = new_max;
            if self.current > new_max {
                self.current = new_max;
            }
            Ok(())
        }
    }
}

impl RegeneratingPool for NullPool {
    fn regen_per_second(&self) -> (regen_per_second: i64) {
        self.regen_per_second
    }

    fn set_regen_per_second(&mut self, new_regen_per_second: i64) {
        self.regen_per_second = new_regen_per_second;
    }
}

/// What the input layer reports of one action in one step.
#[derive(Debug, Clone, Copy, PartialEq, Eq, Structural)]
pub enum ButtonState {
    /// The action was pressed in this step.
    JustPressed,
    /// The action has been held down since an earlier step.
    Pressed,
    /// The action is not pressed.
    Released,
}

impl ButtonState {
    /// Is the action pressed, whether since this step or since an earlier one?
    pub open spec fn is_pressed(self) -> bool {
        self != ButtonState::Released
    }

    /// Was the action pressed in this step?
    pub open spec fn is_just_pressed(self) -> bool {
        self == ButtonState::JustPressed
    }
}

/// What is reported of the action stored under `index`: an action that nothing was reported
/// of is released.
pub open spec fn button_state(buttons: Map<usize, ButtonState>, index: usize) -> ButtonState {
    if buttons.contains_key(index) {
        buttons[index]
    } else {
        ButtonState::Released
    }
}

/// What the input layer reports of each action of type `A` in one step.
///
/// The input layer itself is not part of this crate: whoever drives it writes down here,
/// once per step, which actions are pressed.
#[derive(Debug)]
pub struct ActionState<A> {
    /// The state of each action that something was reported of, by the index of the action.
    buttons: HashMap<usize, ButtonState>,
    _phantom: PhantomData<A>,
}

impl<A> View for ActionState<A> {
    type V = Map<usize, ButtonState>;

    closed spec fn view(&self) -> Map<usize, ButtonState> {
        self.buttons@
    }
}

impl<A> Default for ActionState<A> {
    /// Every action is released.
    fn default() -> (state: Self)
        ensures
            state@ == Map::<usize, ButtonState>::empty(),
    {
        ActionState { buttons: HashMap::new(), _phantom: PhantomData }
    }
}

impl<A> ActionState<A> {
    /// What is reported of the action stored under `index`.
    pub(crate) fn get_at(&self, index: usize) -> (state: ButtonState)
        ensures
            state == button_state(self@, index),
    {
        match self.buttons.get(&index) {
            Some(state) => *state,
            None => ButtonState::Released,
        }
    }
}

impl<A: Abilitylike> ActionState<A> {
    /// Writes down what is reported of `action`.
    pub fn set(&mut self, action: A, state: ButtonState)
        ensures
            final(self)@ == old(self)@.insert(action.action_index(), state),
    {
        let index: usize = action.index();
        self.buttons.insert(index, state);
    }

    /// What is reported of `action`.
    pub fn get(&self, action: A) -> (state: ButtonState)
        ensures
            state == button_state(self@, action.action_index()),
    {
        let index: usize = action.index();
        self.get_at(index)
    }

    /// Is `action` pressed, whether since this step or since an earlier one?
    pub fn pressed(&self, action: A) -> (pressed: bool)
        ensures
            pressed == button_state(self@, action.action_index()).is_pressed(),
    {
        match self.get(action) {
            ButtonState::Released => false,
            _ => true,
        }
    }

    /// Was `action` pressed in this step?
    pub fn just_pressed(&self, action: A) -> (just_pressed: bool)
        ensures
            just_pressed == button_state(self@, action.action_index()).is_just_pressed(),
    {
        match self.get(action) {
            ButtonState::JustPressed => true,
            _ => false,
        }
    }
}

/// What a check reports that asks for an action to be attempted and to be ready:
/// an action that was not attempted is reported as such, whatever its readiness.
pub open spec fn attempted_and_ready(
    attempted: bool,
    readiness: Result<(), CannotUseAbility>,
) -> Result<(), CannotUseAbility> {
    if attempted {
        readiness
    } else {
        Err(CannotUseAbility::NotPressed)
    }
}

/// An action that was not attempted is reported as not pressed, even when nothing else is
/// in the way of its use; an action that was attempted is reported as its readiness says.
pub proof fn lemma_not_attempted_wins(attempted: bool, readiness: Result<(), CannotUseAbility>)
    ensures
        !attempted ==> attempted_and_ready(attempted, readiness) == Err::<(), CannotUseAbility>(
            CannotUseAbility::NotPressed,
        ),
        attempted ==> attempted_and_ready(attempted, readiness) == readiness,
        attempted_and_ready(attempted, readiness) is Ok <==> attempted && readiness is Ok,
{
}

/// Is `error` in the way of the use of the action stored under `index`?
///
/// Charges, where an action has them, decide alone; so does a cooldown, together with the
/// global cooldown, where an action has one and no charges; the pool is asked only where an
/// action has neither.
pub open spec fn in_the_way(
    error: CannotUseAbility,
    attempted: bool,
    index: usize,
    charges: Map<usize, ChargesView>,
    cooldowns: CooldownStateView,
    pool: Option<int>,
    costs: Option<Map<usize, int>>,
) -> bool {
    match error {
        CannotUseAbility::NotPressed => !attempted,
        CannotUseAbility::NoCharges => charges.contains_key(index) && !charges[index].available(),
        CannotUseAbility::OnCooldown => {
            &&& !charges.contains_key(index)
            &&& cooldowns.cooldowns.contains_key(index)
            &&& !cooldowns.cooldowns[index].is_ready()
        },
        CannotUseAbility::OnGlobalCooldown => {
            &&& !charges.contains_key(index)
            &&& cooldowns.cooldowns.contains_key(index)
            &&& cooldowns.gcd_ready() is Err
        },
        CannotUseAbility::PoolInsufficient => {
            &&& !charges.contains_key(index)
            &&& !cooldowns.cooldowns.contains_key(index)
            &&& pool_readiness(pool, action_cost(costs, index)) is Err
        },
    }
}

/// An action can be used exactly if nothing is in the way. If anything is, the error that
/// is reported is in the way, and no error that is in the way has a higher priority:
/// not pressed comes before no charges, before the action's cooldown, before the global
/// cooldown, before the pool.
pub proof fn lemma_errors_are_reported_by_priority(
    attempted: bool,
    index: usize,
    charges: Map<usize, ChargesView>,
    cooldowns: CooldownStateView,
    pool: Option<int>,
    costs: Option<Map<usize, int>>,
)
    ensures
        ({
            let outcome = attempted_and_ready(
                attempted,
                readiness(index, charges, cooldowns, pool, costs),
            );
            &&& outcome is Ok <==> forall|error: CannotUseAbility|
                !in_the_way(error, attempted, index, charges, cooldowns, pool, costs)
            &&& outcome matches Err(reported) ==> {
                &&& in_the_way(reported, attempted, index, charges, cooldowns, pool, costs)
                &&& forall|error: CannotUseAbility|
                    in_the_way(error, attempted, index, charges, cooldowns, pool, costs)
                        ==> reported.priority() <= error.priority()
            }
        }),
{
    let outcome = attempted_and_ready(attempted, readiness(index, charges, cooldowns, pool, costs));
    if outcome is Ok {
        assert forall|error: CannotUseAbility|
            !in_the_way(error, attempted, index, charges, cooldowns, pool, costs) by {}
    } else {
        let reported = outcome->Err_0;
        assert(in_the_way(reported, attempted, index, charges, cooldowns, pool, costs));
    }
}

/// All ability relevant data of one entity, for reading.
///
/// If you want your abilities to require paying costs, pass in the appropriate [`Pool`] type `P`.
/// Otherwise, use [`NullPool`].
pub struct AbilityStateReadOnlyItem<'a, A, P: Pool> {
    /// The [`ActionState`] of the abilities of this entity of type `A`
    pub action_state: &'a ActionState<A>,
    /// The [`ChargeState`] associated with each action of type `A` for this entity
    pub charges: &'a ChargeState<A>,
    /// The [`CooldownState`] associated with each action of type `A` for this entity
    pub cooldowns: &'a CooldownState<A>,
    /// The [`Pool`] of resources of type `P` that should be spent
    pub pool: Option<&'a P>,
    /// The [`AbilityCosts`] of each ability, in terms of [`P::Quantity`](Pool::Quantity)
    pub ability_costs: Option<&'a AbilityCosts<A, P>>,
}

impl<'a, A: Abilitylike, P: Pool> AbilityStateReadOnlyItem<'a, A, P> {
    /// What a readiness check reports for the action stored under `index`.
    pub open spec fn readiness(&self, index: usize) -> Result<(), CannotUseAbility> {
        readiness(
            index,
            self.charges@,
            self.cooldowns@,
            match self.pool {
                Some(pool) => Some(pool.current_amount()),
                None => None,
            },
            match self.ability_costs {
                Some(costs) => Some(costs@),
                None => None,
            },
        )
    }

    /// Is this ability ready?
    ///
    /// Calls [`Abilitylike::ready`] on the specified action.
    pub fn ready(&self, action: A) -> (outcome: Result<(), CannotUseAbility>)
        ensures
            outcome == self.readiness(action.action_index()),
    {
        action.ready(self.charges, self.cooldowns, self.pool, self.ability_costs)
    }

    /// Is this ability both ready and pressed?
    ///
    /// The error value for "this ability is not pressed" will be prioritized over "this ability is not ready".
    pub fn ready_and_pressed(&self, action: A) -> (outcome: Result<(), CannotUseAbility>)
        ensures
            outcome == attempted_and_ready(
                button_state(self.action_state@, action.action_index()).is_pressed(),
                self.readiness(action.action_index()),
            ),
    {
        let index: usize = action.index();
        match self.action_state.get_at(index) {
            ButtonState::Released => Err(CannotUseAbility::NotPressed),
            _ => self.ready(action),
        }
    }

    /// Is this ability both ready and just pressed?
    ///
    /// The error value for "this ability is not pressed" will be prioritized over "this ability is not ready".
    pub fn ready_and_just_pressed(&self, action: A) -> (outcome: Result<(), CannotUseAbility>)
        ensures
            outcome == attempted_and_ready(
                button_state(self.action_state@, action.action_index()).is_just_pressed(),
                self.readiness(action.action_index()),
            ),
    {
        let index: usize = action.index();
        match self.action_state.get_at(index) {
            ButtonState::JustPressed => self.ready(action),
            _ => Err(CannotUseAbility::NotPressed),
        }
    }
}

/// All ability relevant data of one entity, for reading and for use.
///
/// If you want your abilities to require paying costs, pass in the appropriate [`Pool`] type `P`.
/// Otherwise, use [`NullPool`].
pub struct AbilityStateItem<'a, A, P: Pool> {
    /// The [`ActionState`] of the abilities of this entity of type `A`
    pub action_state: &'a ActionState<A>,
    /// The [`ChargeState`] associated with each action of type `A` for this entity
    pub charges: &'a mut ChargeState<A>,
    /// The [`CooldownState`] associated with each action of type `A` for this entity
    pub cooldowns: &'a mut CooldownState<A>,
    /// The [`Pool`] of resources of type `P` that should be spent
    pub pool: Option<&'a mut P>,
    /// The [`AbilityCosts`] of each ability, in terms of [`P::Quantity`](Pool::Quantity)
    pub ability_costs: Option<&'a mut AbilityCosts<A, P>>,
}

impl<'a, A: Abilitylike, P: Pool> AbilityStateItem<'a, A, P> {
    /// The invariant of the data: every store and the pool are well-formed.
    pub open spec fn wf(&self) -> bool {
        &&& self.charges.wf()
        &&& self.cooldowns.wf()
        &&& self.pool matches Some(pool) ==> pool_wf(pool)
    }

    /// How much the pool holds, if there is one.
    pub open spec fn pool_amount(&self) -> Option<int> {
        match self.pool {
            Some(pool) => Some(pool.current_amount()),
            None => None,
        }
    }

    /// The cost of each action, if there are costs.
    pub open spec fn costs(&self) -> Option<Map<usize, int>> {
        match self.ability_costs {
            Some(costs) => Some(costs@),
            None => None,
        }
    }

    /// What a readiness check reports for the action stored under `index`.
    pub open spec fn readiness(&self, index: usize) -> Result<(), CannotUseAbility> {
        readiness(index, self.charges@, self.cooldowns@, self.pool_amount(), self.costs())
    }

    /// Is this ability ready?
    ///
    /// Calls [`Abilitylike::ready`] on the specified action.
    pub fn ready(&self, action: A) -> (outcome: Result<(), CannotUseAbility>)
        ensures
            outcome == self.readiness(action.action_index()),
    {
        let maybe_pool: Option<&P> = match &self.pool {
            Some(mut_pool) => Some(&**mut_pool),
            None => None,
        };
        let maybe_ability_costs: Option<&AbilityCosts<A, P>> = match &self.ability_costs {
            Some(ability_costs) => Some(&**ability_costs),
            None => None,
        };
        action.ready(&*self.charges, &*self.cooldowns, maybe_pool, maybe_ability_costs)
    }

    /// Is this ability both ready and pressed?
    ///
    /// The error value for "this ability is not pressed" will be prioritized over "this ability is not ready".
    pub fn ready_and_pressed(&self, action: A) -> (outcome: Result<(), CannotUseAbility>)
        ensures
            outcome == attempted_and_ready(
                button_state(self.action_state@, action.action_index()).is_pressed(),
                self.readiness(action.action_index()),
            ),
    {
        let index: usize = action.index();
        match self.action_state.get_at(index) {
            ButtonState::Released => Err(CannotUseAbility::NotPressed),
            _ => self.ready(action),
        }
    }

    /// Is this ability both ready and just pressed?
    ///
    /// The error value for "this ability is not pressed" will be prioritized over "this ability is not ready".
    pub fn ready_and_just_pressed(&self, action: A) -> (outcome: Result<(), CannotUseAbility>)
        ensures
            outcome == attempted_and_ready(
                button_state(self.action_state@, action.action_index()).is_just_pressed(),
                self.readiness(action.action_index()),
            ),
    {
        let index: usize = action.index();
        match self.action_state.get_at(index) {
            ButtonState::JustPressed => self.ready(action),
            _ => Err(CannotUseAbility::NotPressed),
        }
    }

    /// What a use of the action stored under `index` leaves in the pool, if there is one:
    /// the cost of the action is taken, if it has one and the pool can pay it.
    pub open spec fn pool_amount_after_use(&self, index: usize) -> Option<int> {
        match self.pool {
            Some(pool) => Some(
                pool_after_use(
                    pool.current_amount(),
                    P::min_amount(),
                    pool.max_amount(),
                    action_cost(self.costs(), index),
                ),
            ),
            None => None,
        }
    }

    /// Triggers this ability, depleting a charge if available.
    ///
    /// Calls [`Abilitylike::trigger`] on the specified action: an ability that is not ready
    /// is not used, and nothing changes.
    pub fn trigger(&mut self, action: A) -> (outcome: Result<(), CannotUseAbility>)
        requires
            old(self).wf(),
        ensures
            final(self).wf(),
            outcome == old(self).readiness(action.action_index()),
            outcome is Ok ==> {
                &&& final(self).charges@ == charges_after_use(
                    old(self).charges@,
                    action.action_index(),
                )
                &&& final(self).cooldowns@ == cooldowns_after_use(
                    old(self).cooldowns@,
                    old(self).charges@.contains_key(action.action_index()),
                    action.action_index(),
                )
                &&& final(self).pool_amount() == old(self).pool_amount_after_use(
                    action.action_index(),
                )
            },
            outcome is Err ==> {
                &&& final(self).charges@ == old(self).charges@
                &&& final(self).cooldowns@ == old(self).cooldowns@
                &&& final(self).pool_amount() == old(self).pool_amount()
            },
            final(self).action_state == old(self).action_state,
            final(self).costs() == old(self).costs(),
            match (old(self).pool, final(self).pool) {
                (Some(before), Some(after)) => {
                    &&& after.max_amount() == before.max_amount()
                    &&& after.regen_amount() == before.regen_amount()
                    &&& *final(after) == *final(before)
                },
                (None, None) => true,
                _ => false,
            },
            match (old(self).ability_costs, final(self).ability_costs) {
                (Some(before), Some(after)) => *after == *before && *final(after) == *final(before),
                (None, None) => true,
                _ => false,
            },
            *final(final(self).charges) == *final(old(self).charges),
            *final(final(self).cooldowns) == *final(old(self).cooldowns),
    {
        let maybe_pool: Option<&mut P> = match &mut self.pool {
            Some(mut_pool) => Some(&mut **mut_pool),
            None => None,
        };
        let maybe_ability_costs: Option<&AbilityCosts<A, P>> = match &self.ability_costs {
            Some(ability_costs) => Some(&**ability_costs),
            None => None,
        };
        action.trigger(&mut *self.charges, &mut *self.cooldowns, maybe_pool, maybe_ability_costs)
    }

    /// Triggers this ability (and depletes available charges), if the action was pressed in
    /// this step.
    ///
    /// Calls [`Abilitylike::trigger`] on the specified action.
    /// An action that has been held down since an earlier step counts as not pressed here.
    pub fn trigger_if_pressed(&mut self, action: A) -> (outcome: Result<(), CannotUseAbility>)
        requires
            old(self).wf(),
        ensures
            final(self).wf(),
            outcome == attempted_and_ready(
                button_state(old(self).action_state@, action.action_index()).is_just_pressed(),
                old(self).readiness(action.action_index()),
            ),
            outcome is Ok ==> {
                &&& final(self).charges@ == charges_after_use(
                    old(self).charges@,
                    action.action_index(),
                )
                &&& final(self).cooldowns@ == cooldowns_after_use(
                    old(self).cooldowns@,
                    old(self).charges@.contains_key(action.action_index()),
                    action.action_index(),
                )
                &&& final(self).pool_amount() == old(self).pool_amount_after_use(
                    action.action_index(),
                )
            },
            outcome is Err ==> {
                &&& final(self).charges@ == old(self).charges@
                &&& final(self).cooldowns@ == old(self).cooldowns@
                &&& final(self).pool_amount() == old(self).pool_amount()
            },
            final(self).action_state == old(self).action_state,
            final(self).costs() == old(self).costs(),
            match (old(self).pool, final(self).pool) {
                (Some(before), Some(after)) => {
                    &&& after.max_amount() == before.max_amount()
                    &&& after.regen_amount() == before.regen_amount()
                    &&& *final(after) == *final(before)
                },
                (None, None) => true,
                _ => false,
            },
            match (old(self).ability_costs, final(self).ability_costs) {
                (Some(before), Some(after)) => *after == *before && *final(after) == *final(before),
                (None, None) => true,
                _ => false,
            },
            *final(final(self).charges) == *final(old(self).charges),
            *final(final(self).cooldowns) == *final(old(self).cooldowns),
    {
        let index: usize = action.index();
        match self.action_state.get_at(index) {
            ButtonState::JustPressed => self.trigger(action),
            _ => Err(CannotUseAbility::NotPressed),
        }
    }

    /// Triggers this ability (and depletes available charges), if action was just pressed.
    ///
    /// Calls [`Abilitylike::trigger`] on the specified action.
    pub fn trigger_if_just_pressed(&mut self, action: A) -> (outcome: Result<(), CannotUseAbility>)
        requires
            old(self).wf(),
        ensures
            final(self).wf(),
            outcome == attempted_and_ready(
                button_state(old(self).action_state@, action.action_index()).is_just_pressed(),
                old(self).readiness(action.action_index()),
            ),
            outcome is Ok ==> {
                &&& final(self).charges@ == charges_after_use(
                    old(self).charges@,
                    action.action_index(),
                )
                &&& final(self).cooldowns@ == cooldowns_after_use(
                    old(self).cooldowns@,
                    old(self).charges@.contains_key(action.action_index()),
                    action.action_index(),
                )
                &&& final(self).pool_amount() == old(self).pool_amount_after_use(
                    action.action_index(),
                )
            },
            outcome is Err ==> {
                &&& final(self).charges@ == old(self).charges@
                &&& final(self).cooldowns@ == old(self).cooldowns@
                &&& final(self).pool_amount() == old(self).pool_amount()
            },
            final(self).action_state == old(self).action_state,
            final(self).costs() == old(self).costs(),
            match (old(self).pool, final(self).pool) {
                (Some(before), Some(after)) => {
                    &&& after.max_amount() == before.max_amount()
                    &&& after.regen_amount() == before.regen_amount()
                    &&& *final(after) == *final(before)
                },
                (None, None) => true,
                _ => false,
            },
            match (old(self).ability_costs, final(self).ability_costs) {
                (Some(before), Some(after)) => *after == *before && *final(after) == *final(before),
                (None, None) => true,
                _ => false,
            },
            *final(final(self).charges) == *final(old(self).charges),
            *final(final(self).cooldowns) == *final(old(self).cooldowns),
    {
        let index: usize = action.index();
        match self.action_state.get_at(index) {
            ButtonState::JustPressed => self.trigger(action),
            _ => Err(CannotUseAbility::NotPressed),
        }
    }
}

} // verus!
