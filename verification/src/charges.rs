//! Charges are "uses of an action".
//! Actions may only be used if at least one charge is available.
//! Unlike pools, charges are not shared across abilities.
use crate::hash_map::get_mut;
use crate::{Abilitylike, CannotUseAbility};
use std::collections::HashMap;
use std::marker::PhantomData;
use vstd::prelude::*;
use vstd::std_specs::hash::{into_iter_keys, spec_keys_iter};
use vstd::std_specs::iter::IteratorSpec;

verus! {

broadcast use vstd::std_specs::hash::group_hash_axioms;

/// What happens when [`Charges`] are replenished?
#[derive(Debug, Clone, Copy, PartialEq, Eq, Structural)]
pub enum ReplenishStrategy {
    /// A single charge will be recovered.
    ///
    /// Usually paired with [`CooldownStrategy::ConstantlyRefresh`].
    OneAtATime,
    /// All charges will be recovered.
    ///
    /// Usually paired with [`CooldownStrategy::RefreshWhenEmpty`].
    AllAtOnce,
}

impl Default for ReplenishStrategy {
    fn default() -> (strategy: Self)
        ensures
            strategy == ReplenishStrategy::OneAtATime,
    {
        ReplenishStrategy::OneAtATime
    }
}

/// How do these charges replenish when the cooldown coupled to them is advanced?
#[derive(Debug, Clone, Copy, PartialEq, Eq, Structural)]
pub enum CooldownStrategy {
    /// Advancing the cooldown never touches the charges.
    Ignore,
    /// One charge is recovered for every full cooldown cycle that elapses.
    ///
    /// Usually paired with [`ReplenishStrategy::OneAtATime`].
    ConstantlyRefresh,
    /// All charges are recovered at once, but only when none is left and a cycle completes.
    ///
    /// Usually paired with [`ReplenishStrategy::AllAtOnce`].
    RefreshWhenEmpty,
}

impl Default for CooldownStrategy {
    fn default() -> (strategy: Self)
        ensures
            strategy == CooldownStrategy::ConstantlyRefresh,
    {
        CooldownStrategy::ConstantlyRefresh
    }
}

/// The mathematical content of a [`Charges`] value.
pub struct ChargesView {
    /// The number of uses that are left
    pub current: nat,
    /// The largest number of uses that can be stored
    pub max: nat,
    /// What a replenishment adds
    pub replenish_strat: ReplenishStrategy,
    /// How a coupled cooldown replenishes
    pub cooldown_strat: CooldownStrategy,
}

impl ChargesView {
    /// The invariant of every [`Charges`]: no more uses are stored than `max`,
    /// and both counters fit in a byte.
    pub open spec fn wf(self) -> bool {
        self.current <= self.max <= u8::MAX
    }

    /// Full charges with the given capacity and strategies.
    pub open spec fn full(
        max: nat,
        replenish_strat: ReplenishStrategy,
        cooldown_strat: CooldownStrategy,
    ) -> ChargesView {
        ChargesView { current: max, max, replenish_strat, cooldown_strat }
    }

    /// Is at least one charge left?
    pub open spec fn available(self) -> bool {
        self.current > 0
    }

    /// What an attempt to spend one charge reports.
    pub open spec fn expend_outcome(self) -> Result<(), CannotUseAbility> {
        if self.available() {
            Ok(())
        } else {
            Err(CannotUseAbility::NoCharges)
        }
    }

    /// The charges after an attempt to spend one: one less if any was left, else unchanged.
    pub open spec fn expend(self) -> ChargesView {
        if self.available() {
            ChargesView { current: (self.current - 1) as nat, ..self }
        } else {
            self
        }
    }

    /// The charges after `added` more were offered: the sum, capped at `max`.
    pub open spec fn add_charges(self, added: nat) -> ChargesView {
        ChargesView {
            current: if self.current + added > self.max {
                self.max
            } else {
                self.current + added
            },
            ..self
        }
    }

    /// How many of `added` offered charges did not fit below `max`, as far as a byte can
    /// hold the number.
    pub open spec fn add_excess(self, added: nat) -> nat {
        if self.current + added <= self.max {
            0
        } else if self.current + added - self.max > u8::MAX {
            u8::MAX as nat
        } else {
            (self.current + added - self.max) as nat
        }
    }

    /// The charges after the count was set to `charges`, capped at `max`.
    pub open spec fn set_charges(self, charges: nat) -> ChargesView {
        ChargesView { current: if charges > self.max { self.max } else { charges }, ..self }
    }

    /// By how much `charges` exceeds `max`.
    pub open spec fn set_excess(self, charges: nat) -> nat {
        if charges > self.max {
            (charges - self.max) as nat
        } else {
            0
        }
    }

    /// The charges after the capacity was set to `max_charges`:
    /// what is stored beyond the new capacity is lost.
    pub open spec fn set_max_charges(self, max_charges: nat) -> ChargesView {
        ChargesView {
            current: if self.current > max_charges { max_charges } else { self.current },
            max: max_charges,
            ..self
        }
    }

    /// How many charges one replenishment offers.
    pub open spec fn replenish_amount(self) -> nat {
        match self.replenish_strat {
            ReplenishStrategy::OneAtATime => 1,
            ReplenishStrategy::AllAtOnce => self.max,
        }
    }

    /// The charges after one replenishment.
    pub open spec fn replenish(self) -> ChargesView {
        self.add_charges(self.replenish_amount())
    }

    /// How many charges one replenishment offers in vain.
    pub open spec fn replenish_excess(self) -> nat {
        self.add_excess(self.replenish_amount())
    }
}

/// Stores how many times an action can be used.
///
/// Charges are replenished when [`Charges::replenish`] is called,
/// or when the cooldown coupled to them completes a cycle.
#[derive(Clone, Copy, PartialEq, Eq, Debug)]
pub struct Charges {
    current: u8,
    max: u8,
    /// What should happen when the charges are replenished?
    pub replenish_strat: ReplenishStrategy,
    /// How should the corresponding [`Cooldown`](crate::cooldown::Cooldown) interact with these charges?
    pub cooldown_strat: CooldownStrategy,
}

impl View for Charges {
    type V = ChargesView;

    closed spec fn view(&self) -> ChargesView {
        ChargesView {
            current: self.current as nat,
            max: self.max as nat,
            replenish_strat: self.replenish_strat,
            cooldown_strat: self.cooldown_strat,
        }
    }
}

impl Default for Charges {
    /// No charges, and no room for any.
    fn default() -> (charges: Self)
        ensures
            charges@ == ChargesView::full(
                0,
                ReplenishStrategy::OneAtATime,
                CooldownStrategy::ConstantlyRefresh,
            ),
    {
        Charges {
            current: 0,
            max: 0,
            replenish_strat: ReplenishStrategy::OneAtATime,
            cooldown_strat: CooldownStrategy::ConstantlyRefresh,
        }
    }
}

impl Charges {
    /// The invariant that every constructor establishes and every method keeps.
    pub open spec fn wf(&self) -> bool {
        self@.wf()
    }

    /// Creates a new [`Charges`], which can be expended `max_charges` times before needing to be replenished.
    ///
    /// The current charges will be set to the max charges by default.
    pub fn new(
        max_charges: u8,
        replenish_strat: ReplenishStrategy,
        cooldown_strat: CooldownStrategy,
    ) -> (charges: Charges)
        ensures
            charges.wf(),
            charges@ == ChargesView::full(max_charges as nat, replenish_strat, cooldown_strat),
    {
        Charges { current: max_charges, max: max_charges, replenish_strat, cooldown_strat }
    }

    /// Creates a new [`Charges`] with [`ReplenishStrategy::OneAtATime`] and [`CooldownStrategy::Ignore`].
    pub fn simple(max_charges: u8) -> (charges: Charges)
        ensures
            charges.wf(),
            charges@ == ChargesView::full(
                max_charges as nat,
                ReplenishStrategy::OneAtATime,
                CooldownStrategy::Ignore,
            ),
    {
        Charges {
            current: max_charges,
            max: max_charges,
            replenish_strat: ReplenishStrategy::OneAtATime,
            cooldown_strat: CooldownStrategy::Ignore,
        }
    }

    /// Creates a new [`Charges`] with [`ReplenishStrategy::AllAtOnce`] and [`CooldownStrategy::Ignore`].
    pub fn ammo(max_charges: u8) -> (charges: Charges)
        ensures
            charges.wf(),
            charges@ == ChargesView::full(
                max_charges as nat,
                ReplenishStrategy::AllAtOnce,
                CooldownStrategy::Ignore,
            ),
    {
        Charges {
            current: max_charges,
            max: max_charges,
            replenish_strat: ReplenishStrategy::AllAtOnce,
            cooldown_strat: CooldownStrategy::Ignore,
        }
    }

    /// Creates a new [`Charges`] with [`ReplenishStrategy::OneAtATime`] and [`CooldownStrategy::ConstantlyRefresh`].
    pub fn replenish_one(max_charges: u8) -> (charges: Charges)
        ensures
            charges.wf(),
            charges@ == ChargesView::full(
                max_charges as nat,
                ReplenishStrategy::OneAtATime,
                CooldownStrategy::ConstantlyRefresh,
            ),
    {
        Charges {
            current: max_charges,
            max: max_charges,
            replenish_strat: ReplenishStrategy::OneAtATime,
            cooldown_strat: CooldownStrategy::ConstantlyRefresh,
        }
    }

    /// Creates a new [`Charges`] with [`ReplenishStrategy::AllAtOnce`] and [`CooldownStrategy::RefreshWhenEmpty`].
    pub fn replenish_all(max_charges: u8) -> (charges: Charges)
        ensures
            charges.wf(),
            charges@ == ChargesView::full(
                max_charges as nat,
                ReplenishStrategy::AllAtOnce,
                CooldownStrategy::RefreshWhenEmpty,
            ),
    {
        Charges {
            current: max_charges,
            max: max_charges,
            replenish_strat: ReplenishStrategy::AllAtOnce,
            cooldown_strat: CooldownStrategy::RefreshWhenEmpty,
        }
    }

    /// The current number of available charges
    pub fn charges(&self) -> (current: u8)
        ensures
            current == self@.current,
    {
        self.current
    }

    /// The maximum number of available charges
    pub fn max_charges(&self) -> (max: u8)
        ensures
            max == self@.max,
    {
        self.max
    }

    /// What happens when these charges are replenished
    pub fn replenish_strategy(&self) -> (strategy: ReplenishStrategy)
        ensures
            strategy == self@.replenish_strat,
    {
        self.replenish_strat
    }

    /// How the cooldown coupled to these charges replenishes them
    pub fn cooldown_strategy(&self) -> (strategy: CooldownStrategy)
        ensures
            strategy == self@.cooldown_strat,
    {
        self.cooldown_strat
    }

    /// Adds `charges` to the current number of available charges
    ///
    /// This will never exceed the maximum number of charges.
    /// Returns the number of excess charges.
    pub fn add_charges(&mut self, charges: u8) -> (excess: u8)
        requires
            old(self).wf(),
        ensures
            final(self).wf(),
            final(self)@ == old(self)@.add_charges(charges as nat),
            excess == old(self)@.add_excess(charges as nat),
    {
        let new_total: u16 = self.current as u16 + charges as u16;
        let max: u16 = self.max as u16;
        if new_total <= max {
            self.current = new_total as u8;
            0
        } else {
            self.current = self.max;
            if new_total - max > 255 {
                255
            } else {
                (new_total - max) as u8
            }
        }
    }

    /// Set the current number of available charges
    ///
    /// This will never exceed the maximum number of charges.
    /// Returns the number of excess charges.
    pub fn set_charges(&mut self, charges: u8) -> (excess: u8)
        requires
            old(self).wf(),
        ensures
            final(self).wf(),
            final(self)@ == old(self)@.set_charges(charges as nat),
            excess == old(self)@.set_excess(charges as nat),
    {
        let excess: u8 = charges.saturating_sub(self.max);
        self.current = if charges < self.max { charges } else { self.max };
        excess
    }

    /// Set the maximum number of available charges
    ///
    /// If the number of charges available is greater than this number, it will be reduced to the new cap.
    pub fn set_max_charges(&mut self, max_charges: u8)
        requires
            old(self).wf(),
        ensures
            final(self).wf(),
            final(self)@ == old(self)@.set_max_charges(max_charges as nat),
    {
        self.max = max_charges;
        self.current = if self.current < max_charges { self.current } else { max_charges };
    }

    /// Is at least one charge available?
    pub fn available(&self) -> (available: bool)
        ensures
            available == self@.available(),
    {
        self.current > 0
    }

    /// Spends one charge if able.
    ///
    /// If no charges are available, [`CannotUseAbility::NoCharges`] is returned and this call has no effect.
    pub fn expend(&mut self) -> (outcome: Result<(), CannotUseAbility>)
        requires
            old(self).wf(),
        ensures
            final(self).wf(),
            outcome == old(self)@.expend_outcome(),
            final(self)@ == old(self)@.expend(),
            outcome is Err ==> *final(self) == *old(self),
    {
        if self.current == 0 {
            return Err(CannotUseAbility::NoCharges);
        }
        self.current = self.current - 1;
        Ok(())
    }

    /// Replenishes charges, up to the maximum.
    ///
    /// How many are offered is determined by the [`ReplenishStrategy`] of these charges.
    /// Returns the number of charges that were offered in vain.
    pub fn replenish(&mut self) -> (excess: u8)
        requires
            old(self).wf(),
        ensures
            final(self).wf(),
            final(self)@ == old(self)@.replenish(),
            excess == old(self)@.replenish_excess(),
    {
        let charges_to_add: u8 = match self.replenish_strat {
            ReplenishStrategy::OneAtATime => 1,
            ReplenishStrategy::AllAtOnce => self.max,
        };
        self.add_charges(charges_to_add)
    }
}

/// One step in the life of a [`Charges`] value.
pub enum ChargeOp {
    /// An attempt to spend one charge
    Expend,
    /// One replenishment
    Replenish,
    /// An offer of this many charges
    AddCharges(u8),
    /// Setting the count to this number
    SetCharges(u8),
    /// Setting the capacity to this number
    SetMaxCharges(u8),
}

impl ChargesView {
    /// The charges after one step.
    pub open spec fn apply(self, op: ChargeOp) -> ChargesView {
        match op {
            ChargeOp::Expend => self.expend(),
            ChargeOp::Replenish => self.replenish(),
            ChargeOp::AddCharges(charges) => self.add_charges(charges as nat),
            ChargeOp::SetCharges(charges) => self.set_charges(charges as nat),
            ChargeOp::SetMaxCharges(max_charges) => self.set_max_charges(max_charges as nat),
        }
    }

    /// The charges after a sequence of steps, taken from left to right.
    pub open spec fn apply_all(self, ops: Seq<ChargeOp>) -> ChargesView
        decreases ops.len(),
    {
        if ops.len() == 0 {
            self
        } else {
            self.apply_all(ops.drop_last()).apply(ops.last())
        }
    }

    /// The charges after `attempts` attempts to spend one.
    pub open spec fn expend_times(self, attempts: nat) -> ChargesView
        decreases attempts,
    {
        if attempts == 0 {
            self
        } else {
            self.expend_times((attempts - 1) as nat).expend()
        }
    }
}

/// No sequence of expending, replenishing, adding and setting makes the count exceed the
/// capacity.
pub proof fn lemma_charges_never_exceed_max(charges: ChargesView, ops: Seq<ChargeOp>)
    requires
        charges.wf(),
    ensures
        charges.apply_all(ops).wf(),
        charges.apply_all(ops).current <= charges.apply_all(ops).max,
    decreases ops.len(),
{
    if ops.len() > 0 {
        lemma_charges_never_exceed_max(charges, ops.drop_last());
    }
}

/// Each of the first `charges.current` attempts to spend a charge succeeds and takes one away.
pub proof fn lemma_expend_succeeds_while_charges_last(charges: ChargesView, attempts: nat)
    requires
        attempts <= charges.current,
    ensures
        charges.expend_times(attempts).current == charges.current - attempts,
        charges.expend_times(attempts).max == charges.max,
        attempts < charges.current ==> charges.expend_times(attempts).expend_outcome() is Ok,
        attempts == charges.current ==> charges.expend_times(attempts).expend_outcome() == Err::<
            (),
            CannotUseAbility,
        >(CannotUseAbility::NoCharges),
    decreases attempts,
{
    if attempts > 0 {
        lemma_expend_succeeds_while_charges_last(charges, (attempts - 1) as nat);
    }
}

/// Charges with a capacity of `max` can be spent exactly `max` times before none is left:
/// the attempt after that fails with [`CannotUseAbility::NoCharges`] and changes nothing.
pub proof fn lemma_full_charges_expend_exactly_max_times(
    max: nat,
    replenish_strat: ReplenishStrategy,
    cooldown_strat: CooldownStrategy,
)
    ensures
        ({
            let full = ChargesView::full(max, replenish_strat, cooldown_strat);
            &&& forall|attempts: nat|
                attempts < max ==> (#[trigger] full.expend_times(attempts)).expend_outcome() is Ok
            &&& full.expend_times(max).current == 0
            &&& full.expend_times(max).expend_outcome() == Err::<(), CannotUseAbility>(
                CannotUseAbility::NoCharges,
            )
            &&& full.expend_times(max).expend() == full.expend_times(max)
        }),
{
    let full = ChargesView::full(max, replenish_strat, cooldown_strat);
    assert forall|attempts: nat| attempts < max implies (#[trigger] full.expend_times(
        attempts,
    )).expend_outcome() is Ok by {
        lemma_expend_succeeds_while_charges_last(full, attempts);
    }
    lemma_expend_succeeds_while_charges_last(full, max);
}

/// The charges of every action, as a map from the index of the action.
pub open spec fn charge_views(entries: Map<usize, Charges>) -> Map<usize, ChargesView> {
    entries.map_values(|charges: Charges| charges@)
}

/// A sequence of references holds the values that it refers to, and each of them as often.
pub(crate) proof fn lemma_unref_keeps_keys(keys: Seq<&usize>)
    requires
        keys.no_duplicates(),
    ensures
        keys.unref().no_duplicates(),
        forall|index: usize| keys.unref().contains(index) <==> keys.unref().to_set().contains(index),
{
    assert forall|i: int, j: int|
        0 <= i < keys.unref().len() && 0 <= j < keys.unref().len() && i != j implies keys.unref()[i]
        != keys.unref()[j] by {
        assert(keys[i] != keys[j]);
    }
}

/// Taking views commutes with storing an entry.
proof fn lemma_charge_views_insert(entries: Map<usize, Charges>, index: usize)
    ensures
        forall|charges: Charges| #[trigger]
            charge_views(entries.insert(index, charges)) == charge_views(entries).insert(
                index,
                charges@,
            ),
{
    assert forall|charges: Charges| #[trigger]
        charge_views(entries.insert(index, charges)) == charge_views(entries).insert(
            index,
            charges@,
        ) by {
        assert(charge_views(entries.insert(index, charges)) =~= charge_views(entries).insert(
            index,
            charges@,
        ));
    }
}

/// The entries that a sequence of `(index, charges)` pairs describes:
/// where an index occurs more than once, the last pair counts.
pub open spec fn charges_from_pairs(pairs: Seq<(usize, ChargesView)>) -> Map<usize, ChargesView>
    decreases pairs.len(),
{
    if pairs.len() == 0 {
        Map::empty()
    } else {
        charges_from_pairs(pairs.drop_last()).insert(pairs.last().0, pairs.last().1)
    }
}

/// What an attempt to spend one charge of the action stored under `index` reports:
/// an action without an entry can always be used.
pub open spec fn charges_expend_outcome(entries: Map<usize, ChargesView>, index: usize) -> Result<
    (),
    CannotUseAbility,
> {
    if entries.contains_key(index) {
        entries[index].expend_outcome()
    } else {
        Ok(())
    }
}

/// The entries after an attempt to spend one charge of the action stored under `index`.
pub open spec fn charges_expended(entries: Map<usize, ChargesView>, index: usize) -> Map<
    usize,
    ChargesView,
> {
    if entries.contains_key(index) {
        entries.insert(index, entries[index].expend())
    } else {
        entries
    }
}

/// The entries after one replenishment of the action stored under `index`.
pub open spec fn charges_replenished(entries: Map<usize, ChargesView>, index: usize) -> Map<
    usize,
    ChargesView,
> {
    if entries.contains_key(index) {
        entries.insert(index, entries[index].replenish())
    } else {
        entries
    }
}

/// Stores the [`Charges`] of each [`Abilitylike`] action of type `A`.
///
/// An action without an entry is not limited by charges.
#[derive(Debug)]
pub struct ChargeState<A> {
    /// The underlying [`Charges`], by the index of their action.
    charges_map: HashMap<usize, Charges>,
    _phantom: PhantomData<A>,
}

impl<A> View for ChargeState<A> {
    type V = Map<usize, ChargesView>;

    closed spec fn view(&self) -> Map<usize, ChargesView> {
        charge_views(self.charges_map@)
    }
}

impl<A> Default for ChargeState<A> {
    /// No action has charges.
    fn default() -> (state: Self)
        ensures
            state.wf(),
            state@ == Map::<usize, ChargesView>::empty(),
    {
        let state = ChargeState { charges_map: HashMap::new(), _phantom: PhantomData };
        assert(state@ =~= Map::<usize, ChargesView>::empty());
        state
    }
}

impl<A> Clone for ChargeState<A> {
    fn clone(&self) -> (state: Self)
        ensures
            state@ == self@,
    {
        ChargeState { charges_map: self.charges_map.clone(), _phantom: PhantomData }
    }
}

impl<A> ChargeState<A> {
    /// The invariant of the store: the charges of every action are well-formed.
    pub open spec fn wf(&self) -> bool {
        forall|index: usize| #[trigger] self@.contains_key(index) ==> self@[index].wf()
    }

    /// Returns a reference to the [`Charges`] stored under `index`, if set.
    pub fn get_at(&self, index: usize) -> (entry: Option<&Charges>)
        ensures
            match entry {
                Some(charges) => self@.contains_key(index) && charges@ == self@[index],
                None => !self@.contains_key(index),
            },
    {
        self.charges_map.get(&index)
    }

    /// The order in which the store hands out its entries: the indices of all actions that
    /// have [`Charges`], each once. Nothing more is known of the order.
    pub closed spec fn index_order(&self) -> Seq<usize> {
        into_iter_keys(spec_keys_iter(&self.charges_map))
    }

    /// The indices of all actions that have [`Charges`], each once, in no particular order.
    pub fn indices(&self) -> (indices: Vec<usize>)
        ensures
            indices@ == self.index_order(),
            indices@.no_duplicates(),
            forall|index: usize| indices@.contains(index) <==> self@.contains_key(index),
    {
        let mut indices: Vec<usize> = Vec::new();
        let all_keys = self.charges_map.keys();
        let ghost keys = all_keys.remaining();
        assert(keys.unref() == self.index_order());
        for index in iter: all_keys
            invariant
                iter.seq() == keys,
                indices@ == keys.take(iter.index()).unref(),
        {
            proof {
                assert(keys.take(iter.index() + 1).unref() =~= keys.take(iter.index()).unref().push(
                    *index,
                ));
            }
            indices.push(*index);
        }
        proof {
            assert(keys.take(keys.len() as int) == keys);
            lemma_unref_keeps_keys(keys);
            assert(self@.dom() =~= self.charges_map@.dom());
        }
        indices
    }

    /// The [`Charges`] of all actions that have any, in the order of [`Self::indices`].
    pub fn iter(&self) -> (all: Vec<&Charges>)
        ensures
            all.len() == self.index_order().len(),
            forall|i: int|
                0 <= i < all.len() ==> self@.contains_key(#[trigger] self.index_order()[i])
                    && all@[i]@ == self@[self.index_order()[i]],
    {
        let indices: Vec<usize> = self.indices();
        let mut all: Vec<&Charges> = Vec::new();
        let mut i: usize = 0;
        while i < indices.len()
            invariant
                i <= indices.len(),
                indices@ == self.index_order(),
                forall|index: usize| indices@.contains(index) <==> self@.contains_key(index),
                all.len() == i,
                forall|j: int|
                    0 <= j < i ==> self@.contains_key(#[trigger] indices@[j]) && all@[j]@
                        == self@[indices@[j]],
            decreases indices.len() - i,
        {
            let index: usize = indices[i];
            assert(indices@.contains(index));
            let ghost collected = all@;
            match self.get_at(index) {
                Some(charges) => {
                    all.push(charges);
                },
                None => {},
            }
            assert(all@ == collected.push(all@[i as int]));
            i += 1;
        }
        all
    }

    /// Returns a mutable reference to the [`Charges`] stored under `index`, if set.
    pub fn get_mut_at(&mut self, index: usize) -> (entry: Option<&mut Charges>)
        ensures
            match entry {
                Some(charges) => {
                    &&& old(self)@.contains_key(index)
                    &&& charges@ == old(self)@[index]
                    &&& final(self)@ == old(self)@.insert(index, final(charges)@)
                },
                None => !old(self)@.contains_key(index) && final(self)@ == old(self)@,
            },
    {
        proof {
            lemma_charge_views_insert(self.charges_map@, index);
        }
        get_mut(&mut self.charges_map, index)
    }

    /// Stores `charges` under `index`.
    pub fn set_at(&mut self, index: usize, charges: Charges)
        ensures
            final(self)@ == old(self)@.insert(index, charges@),
    {
        proof {
            lemma_charge_views_insert(self.charges_map@, index);
        }
        self.charges_map.insert(index, charges);
    }
}

impl<A: Abilitylike> ChargeState<A> {

    /// Creates a new [`ChargeState`] from a list of `(action, charges)` pairs.
    ///
    /// If a [`Charges`] is not provided for an action, that action will be treated as if a charge was always available.
    /// Where an action occurs more than once, its last pair counts.
    ///
    /// To create an empty [`ChargeState`] struct, use the [`Default::default`] method instead.
    pub fn new(action_chargestate_pairs: Vec<(A, Charges)>) -> (state: Self)
        requires
            forall|i: int|
                0 <= i < action_chargestate_pairs.len() ==> (#[trigger] action_chargestate_pairs[i]).1.wf(),
        ensures
            state.wf(),
            state@ == charges_from_pairs(
                action_chargestate_pairs@.map_values(
                    |pair: (A, Charges)| (pair.0.action_index(), pair.1@),
                ),
            ),
    {
        let ghost pairs = action_chargestate_pairs@.map_values(
            |pair: (A, Charges)| (pair.0.action_index(), pair.1@),
        );
        let mut charge_state: ChargeState<A> = ChargeState::default();
        let mut i: usize = 0;
        while i < action_chargestate_pairs.len()
            invariant
                i <= action_chargestate_pairs.len(),
                charge_state.wf(),
                pairs == action_chargestate_pairs@.map_values(
                    |pair: (A, Charges)| (pair.0.action_index(), pair.1@),
                ),
                charge_state@ == charges_from_pairs(pairs.take(i as int)),
                forall|i: int|
                    0 <= i < action_chargestate_pairs.len() ==> (#[trigger] action_chargestate_pairs[i]).1.wf(),
            decreases action_chargestate_pairs.len() - i,
        {
            let index: usize = action_chargestate_pairs[i].0.index();
            let charges: Charges = action_chargestate_pairs[i].1;
            proof {
                assert(pairs.take(i + 1).drop_last() == pairs.take(i as int));
                assert(pairs.take(i + 1).last() == (index, charges@));
            }
            charge_state.set_at(index, charges);
            i += 1;
        }
        proof {
            assert(pairs.take(i as int) == pairs);
        }
        charge_state
    }

    /// Is at least one charge available for `action`?
    ///
    /// Returns `true` if the action has no [`Charges`].
    pub fn available(&self, action: A) -> (available: bool)
        ensures
            available == (self@.contains_key(action.action_index()) ==> self@[action.action_index()].available()),
    {
        match self.get(action) {
            Some(charges) => charges.available(),
            None => true,
        }
    }

    /// Returns a reference to the underlying [`Charges`] for `action`, if set.
    pub fn get(&self, action: A) -> (entry: Option<&Charges>)
        ensures
            match entry {
                Some(charges) => self@.contains_key(action.action_index()) && charges@
                    == self@[action.action_index()],
                None => !self@.contains_key(action.action_index()),
            },
    {
        let index: usize = action.index();
        self.get_at(index)
    }


    /// Returns a mutable reference to the underlying [`Charges`] for `action`, if set.
    pub fn get_mut(&mut self, action: A) -> (entry: Option<&mut Charges>)
        ensures
            match entry {
                Some(charges) => {
                    &&& old(self)@.contains_key(action.action_index())
                    &&& charges@ == old(self)@[action.action_index()]
                    &&& final(self)@ == old(self)@.insert(action.action_index(), final(charges)@)
                },
                None => !old(self)@.contains_key(action.action_index()) && final(self)@ == old(self)@,
            },
    {
        let index: usize = action.index();
        self.get_mut_at(index)
    }



    /// Spends one charge for `action` if able.
    ///
    /// If no charges are available, [`CannotUseAbility::NoCharges`] is returned and this call has no effect.
    /// An action without [`Charges`] can always be used.
    pub fn expend(&mut self, action: A) -> (outcome: Result<(), CannotUseAbility>)
        requires
            old(self).wf(),
        ensures
            final(self).wf(),
            outcome == charges_expend_outcome(old(self)@, action.action_index()),
            final(self)@ == charges_expended(old(self)@, action.action_index()),
            outcome is Err ==> final(self)@ == old(self)@,
    {
        match self.get_mut(action) {
            Some(charges) => charges.expend(),
            None => Ok(()),
        }
    }

    /// Replenishes charges of `action`, up to its max charges.
    ///
    /// The exact effect is determined by the [`ReplenishStrategy`] of its [`Charges`].
    /// If the `action` is not associated with a [`Charges`], this has no effect.
    pub fn replenish(&mut self, action: A)
        requires
            old(self).wf(),
        ensures
            final(self).wf(),
            final(self)@ == charges_replenished(old(self)@, action.action_index()),
    {
        match self.get_mut(action) {
            Some(charges) => {
                charges.replenish();
            },
            None => {},
        }
    }

    /// Sets the underlying [`Charges`] for `action` to the provided value.
    ///
    /// Unless you're building a new [`ChargeState`] struct, you likely want to use [`Self::get_mut`].
    pub fn set(&mut self, action: A, charges: Charges) -> (state: &mut Self)
        requires
            old(self).wf(),
            charges.wf(),
        ensures
            state.wf(),
            state@ == old(self)@.insert(action.action_index(), charges@),
            *final(self) == *final(state),
    {
        let index: usize = action.index();
        self.set_at(index, charges);
        self
    }

    /// Collects a `&mut Self` into a `Self`.
    ///
    /// Used to conclude the builder pattern.
    pub fn build(&mut self) -> (state: Self)
        ensures
            state@ == old(self)@,
            *final(self) == *old(self),
    {
        self.clone()
    }
}

} // verus!
