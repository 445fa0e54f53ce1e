//! Cooldowns tick down until actions are ready to be used.
use crate::charges::{ChargeState, Charges, ChargesView, CooldownStrategy};
use crate::cooldown_map::{self, cooldown_entries, CooldownMap};
use crate::time::{duration_nanos, duration_of, nanos_of, MAX_NANOS};
use crate::{Abilitylike, CannotUseAbility};
use core::marker::PhantomData;
use core::time::Duration;
use vstd::arithmetic::div_mod::lemma_fundamental_div_mod;
use vstd::arithmetic::div_mod::lemma_fundamental_div_mod_converse;
use vstd::prelude::*;

verus! {

/// The mathematical content of a [`Cooldown`]: two spans of time, in nanoseconds.
pub struct CooldownView {
    /// How long the action takes to become ready again after it was used
    pub max_time: nat,
    /// How much of that time has passed
    pub elapsed_time: nat,
}

impl CooldownView {
    /// The invariant of every [`Cooldown`]: the period is not zero, it fits in a
    /// [`Duration`], and no more time has elapsed than one period.
    pub open spec fn wf(self) -> bool {
        0 < self.max_time <= MAX_NANOS && self.elapsed_time <= self.max_time
    }

    /// A cooldown with the given period that nothing has triggered yet.
    pub open spec fn fresh(max_time: nat) -> CooldownView {
        CooldownView { max_time, elapsed_time: max_time }
    }

    /// Has the whole period elapsed?
    pub open spec fn is_ready(self) -> bool {
        self.elapsed_time >= self.max_time
    }

    /// What a readiness check reports.
    pub open spec fn ready(self) -> Result<(), CannotUseAbility> {
        if self.is_ready() {
            Ok(())
        } else {
            Err(CannotUseAbility::OnCooldown)
        }
    }

    /// The cooldown after an attempt to use it: started over if it was ready, else unchanged.
    pub open spec fn trigger(self) -> CooldownView {
        if self.is_ready() {
            CooldownView { elapsed_time: 0, ..self }
        } else {
            self
        }
    }

    /// The cooldown once it was made ready at once.
    pub open spec fn refresh(self) -> CooldownView {
        CooldownView { elapsed_time: self.max_time, ..self }
    }

    /// The time that is left until the cooldown is ready.
    pub open spec fn remaining(self) -> nat {
        if self.elapsed_time >= self.max_time {
            0
        } else {
            (self.max_time - self.elapsed_time) as nat
        }
    }

    /// The cooldown with another period: time elapsed beyond the new period is cut off.
    pub open spec fn set_max_time(self, max_time: nat) -> CooldownView {
        CooldownView {
            max_time,
            elapsed_time: if self.elapsed_time > max_time {
                max_time
            } else {
                self.elapsed_time
            },
        }
    }

    /// The cooldown with another elapsed time, cut off at one period.
    pub open spec fn set_elapsed(self, elapsed_time: nat) -> CooldownView {
        CooldownView {
            elapsed_time: if elapsed_time > self.max_time {
                self.max_time
            } else {
                elapsed_time
            },
            ..self
        }
    }

    /// The cooldown with another remaining time, cut off at one period.
    pub open spec fn set_remaining(self, time_remaining: nat) -> CooldownView {
        CooldownView {
            elapsed_time: if time_remaining > self.max_time {
                0
            } else {
                (self.max_time - time_remaining) as nat
            },
            ..self
        }
    }

    /// The cooldown after `delta` more time has passed and nothing was replenished:
    /// it stops at one full period.
    pub open spec fn advance(self, delta: nat) -> CooldownView {
        self.set_elapsed(self.elapsed_time + delta)
    }

    /// How many whole periods fit into the elapsed time and `delta` together.
    pub open spec fn completed_cycles(self, delta: nat) -> nat {
        (self.elapsed_time + delta) / self.max_time
    }

    /// What is left of the elapsed time and `delta` together after all whole periods.
    pub open spec fn cycle_remainder(self, delta: nat) -> nat {
        (self.elapsed_time + delta) % self.max_time
    }

    /// How many charges the completed periods offer: one for each, as far as a byte can hold.
    pub open spec fn offered_charges(self, delta: nat) -> nat {
        if self.completed_cycles(delta) > u8::MAX {
            u8::MAX as nat
        } else {
            self.completed_cycles(delta)
        }
    }

    /// The charges coupled to this cooldown after `delta` more time has passed.
    ///
    /// A cooldown that is already ready does nothing. Otherwise the
    /// [`CooldownStrategy`] of the charges decides:
    /// - [`CooldownStrategy::Ignore`]: the charges stay as they are.
    /// - [`CooldownStrategy::ConstantlyRefresh`]: one charge is offered for each completed period.
    /// - [`CooldownStrategy::RefreshWhenEmpty`]: if no charge is left and a period was completed,
    ///   the charges are filled up; otherwise they stay as they are.
    pub open spec fn tick_charges(self, delta: nat, charges: ChargesView) -> ChargesView {
        if self.elapsed_time == self.max_time {
            charges
        } else {
            match charges.cooldown_strat {
                CooldownStrategy::Ignore => charges,
                CooldownStrategy::ConstantlyRefresh => charges.add_charges(
                    self.offered_charges(delta),
                ),
                CooldownStrategy::RefreshWhenEmpty => if charges.current == 0
                    && self.completed_cycles(delta) >= 1 {
                    charges.set_charges(charges.max)
                } else {
                    charges
                },
            }
        }
    }

    /// The cooldown after `delta` more time has passed.
    ///
    /// A cooldown that is already ready does nothing. Without charges that are replenished
    /// one period at a time, the elapsed time grows by `delta` and stops at one period.
    /// With such charges the cooldown keeps cycling: as long as every offered charge found
    /// room, the elapsed time is what is left after all completed periods; as soon as one
    /// did not, the cooldown is ready and stays so.
    pub open spec fn tick(self, delta: nat, charges: Option<ChargesView>) -> CooldownView {
        if self.elapsed_time == self.max_time {
            self
        } else {
            match charges {
                Some(charges) => match charges.cooldown_strat {
                    CooldownStrategy::ConstantlyRefresh => if charges.add_excess(
                        self.offered_charges(delta),
                    ) == 0 {
                        CooldownView { elapsed_time: self.cycle_remainder(delta), ..self }
                    } else {
                        self.refresh()
                    },
                    CooldownStrategy::Ignore => self.advance(delta),
                    CooldownStrategy::RefreshWhenEmpty => self.advance(delta),
                },
                None => self.advance(delta),
            }
        }
    }
}

/// A cooldown that nothing has triggered yet is ready: all of its period has elapsed.
pub proof fn lemma_fresh_cooldown_is_ready(max_time: nat)
    ensures
        CooldownView::fresh(max_time).elapsed_time == CooldownView::fresh(max_time).max_time,
        CooldownView::fresh(max_time).ready() is Ok,
{
}

/// A cooldown is ready as soon as exactly one period has elapsed, and not before.
pub proof fn lemma_cooldown_ready_at_boundary(cooldown: CooldownView)
    requires
        cooldown.wf(),
    ensures
        cooldown.ready() is Ok <==> cooldown.elapsed_time == cooldown.max_time,
        cooldown.ready() is Err <==> cooldown.ready() == Err::<(), CannotUseAbility>(
            CannotUseAbility::OnCooldown,
        ),
{
}

/// A cooldown that was ready and has been triggered is not ready any more,
/// and a cooldown that was not ready is not changed by an attempt to trigger it.
pub proof fn lemma_triggered_cooldown_is_not_ready(cooldown: CooldownView)
    requires
        cooldown.wf(),
    ensures
        cooldown.ready() is Ok ==> cooldown.trigger().ready() == Err::<(), CannotUseAbility>(
            CannotUseAbility::OnCooldown,
        ),
        cooldown.ready() is Err ==> cooldown.trigger() == cooldown,
        cooldown.trigger().wf(),
{
}

/// Without charges, a cooldown that was triggered is ready again exactly when one period
/// has passed, however the time is cut into steps.
pub proof fn lemma_triggered_cooldown_recovers(cooldown: CooldownView, first: nat, second: nat)
    requires
        cooldown.wf(),
        cooldown.ready() is Ok,
    ensures
        cooldown.trigger().tick(first, None).ready() is Ok <==> first >= cooldown.max_time,
        cooldown.trigger().tick(first, None).tick(second, None).ready() is Ok <==> first + second
            >= cooldown.max_time,
{
}

/// A single step loses no cycle: a cooldown that is not ready, coupled to charges that
/// refresh constantly, offers one charge for every period that is completed in the step.
///
/// While all of them find room, the cooldown keeps cycling, with what is left of the step
/// elapsed in the new period. As soon as one does not, the charges are full and the cooldown
/// is ready and rests.
///
/// (More than 255 periods in one step are counted as 255. The law leaves out the one case
/// where this shows: empty charges with room for 255 and a step of more periods than that.)
pub proof fn lemma_tick_counts_every_cycle(cooldown: CooldownView, charges: ChargesView, delta: nat)
    requires
        cooldown.wf(),
        charges.wf(),
        cooldown.elapsed_time < cooldown.max_time,
        charges.cooldown_strat == CooldownStrategy::ConstantlyRefresh,
        cooldown.completed_cycles(delta) <= u8::MAX || charges.current > 0 || charges.max < u8::MAX,
    ensures
        charges.current + cooldown.completed_cycles(delta) <= charges.max ==> {
            &&& cooldown.tick_charges(delta, charges).current == charges.current
                + cooldown.completed_cycles(delta)
            &&& cooldown.tick(delta, Some(charges)).elapsed_time == cooldown.cycle_remainder(delta)
        },
        charges.current + cooldown.completed_cycles(delta) > charges.max ==> {
            &&& cooldown.tick_charges(delta, charges).current == charges.max
            &&& cooldown.tick(delta, Some(charges)).elapsed_time == cooldown.max_time
        },
        cooldown.tick_charges(delta, charges).max == charges.max,
        cooldown.tick(delta, Some(charges)).max_time == cooldown.max_time,
{
}

/// A step of two and a half periods on a cooldown that was just triggered, coupled to
/// empty charges that refresh constantly: with room for two charges or more, two are
/// gained and half a period has elapsed; with less room, the charges are full and the
/// cooldown is ready.
pub proof fn lemma_tick_over_two_and_a_half_cycles(period: nat, charges: ChargesView)
    requires
        0 < period <= MAX_NANOS,
        period % 2 == 0,
        charges.wf(),
        charges.current == 0,
        charges.cooldown_strat == CooldownStrategy::ConstantlyRefresh,
    ensures
        ({
            let cooldown = CooldownView::fresh(period).trigger();
            let delta = 2 * period + period / 2;
            &&& charges.max >= 2 ==> {
                &&& cooldown.tick_charges(delta, charges).current == 2
                &&& cooldown.tick(delta, Some(charges)).elapsed_time == period / 2
            }
            &&& charges.max < 2 ==> {
                &&& cooldown.tick_charges(delta, charges).current == charges.max
                &&& cooldown.tick(delta, Some(charges)).elapsed_time == period
            }
        }),
{
    let cooldown = CooldownView::fresh(period).trigger();
    let delta = 2 * period + period / 2;
    assert(delta == 2 * period + period / 2);
    lemma_fundamental_div_mod_converse(delta as int, period as int, 2, (period / 2) as int);
    lemma_tick_counts_every_cycle(cooldown, charges, delta);
}

/// Records the time until an action is available to be used again.
///
/// When created, cooldowns are ready.
///
/// ```rust
/// use core::time::Duration;
/// use leafwing_abilities::cooldown::Cooldown;
/// use leafwing_abilities::CannotUseAbility;
///
/// let mut cooldown = Cooldown::try_new(Duration::from_secs(3)).unwrap();
/// assert_eq!(cooldown.remaining(), Duration::ZERO);
///
/// let _ = cooldown.trigger();
/// assert_eq!(cooldown.remaining(), Duration::from_secs(3));
///
/// cooldown.tick(Duration::from_secs(1), None);
/// assert_eq!(cooldown.ready(), Err(CannotUseAbility::OnCooldown));
///
/// cooldown.tick(Duration::from_secs(5), None);
/// let triggered = cooldown.trigger();
/// assert!(triggered.is_ok());
///
/// cooldown.refresh();
/// assert!(cooldown.ready().is_ok());
/// ```
#[derive(Clone, Copy, PartialEq, Eq, Debug)]
pub struct Cooldown {
    max_nanos: u128,
    elapsed_nanos: u128,
}

impl View for Cooldown {
    type V = CooldownView;

    closed spec fn view(&self) -> CooldownView {
        CooldownView { max_time: self.max_nanos as nat, elapsed_time: self.elapsed_nanos as nat }
    }
}

impl Cooldown {
    /// The invariant that every constructor establishes and every method keeps.
    pub open spec fn wf(&self) -> bool {
        self@.wf()
    }

    /// Creates a new [`Cooldown`], which will take `max_nanos` nanoseconds after it is used
    /// until it is ready again.
    pub fn from_nanos(max_nanos: u128) -> (cooldown: Cooldown)
        requires
            0 < max_nanos <= MAX_NANOS,
        ensures
            cooldown.wf(),
            cooldown@ == CooldownView::fresh(max_nanos as nat),
    {
        Cooldown { max_nanos, elapsed_nanos: max_nanos }
    }

    /// Creates a new [`Cooldown`], which will take `max_time` after it is used until it is ready again.
    ///
    /// The provided max time cannot be [`Duration::ZERO`]:
    /// an action without a cooldown has no entry in its
    /// [`CooldownState`](crate::cooldown::CooldownState).
    pub fn new(max_time: Duration) -> (cooldown: Cooldown)
        requires
            duration_nanos(max_time) > 0,
        ensures
            cooldown.wf(),
            cooldown@ == CooldownView::fresh(duration_nanos(max_time)),
    {
        Cooldown::from_nanos(nanos_of(max_time))
    }

    /// Creates a new [`Cooldown`] as [`Cooldown::new`] does, unless `max_time` is
    /// [`Duration::ZERO`].
    pub fn try_new(max_time: Duration) -> (cooldown: Option<Cooldown>)
        ensures
            match cooldown {
                Some(cooldown) => {
                    &&& duration_nanos(max_time) > 0
                    &&& cooldown.wf()
                    &&& cooldown@ == CooldownView::fresh(duration_nanos(max_time))
                },
                None => duration_nanos(max_time) == 0,
            },
    {
        let max_nanos: u128 = nanos_of(max_time);
        if max_nanos == 0 {
            None
        } else {
            Some(Cooldown::from_nanos(max_nanos))
        }
    }

    /// The elapsed time after `delta_nanos` more nanoseconds, stopped at one period.
    fn advanced(&self, delta_nanos: u128) -> (elapsed: u128)
        requires
            self.wf(),
        ensures
            elapsed == self@.advance(delta_nanos as nat).elapsed_time,
    {
        let room: u128 = self.max_nanos - self.elapsed_nanos;
        if delta_nanos >= room {
            self.max_nanos
        } else {
            self.elapsed_nanos + delta_nanos
        }
    }

    /// Splits the elapsed time and `delta_nanos` together into whole periods, counted as far
    /// as a byte can hold, and the rest.
    fn cycles(&self, delta_nanos: u128) -> (split: (u8, u128))
        requires
            self.wf(),
        ensures
            split.0 == self@.offered_charges(delta_nanos as nat),
            split.1 == self@.cycle_remainder(delta_nanos as nat),
            (split.0 >= 1) == (self@.completed_cycles(delta_nanos as nat) >= 1),
    {
        let delta_cycles: u128 = delta_nanos / self.max_nanos;
        let delta_rest: u128 = delta_nanos % self.max_nanos;
        let rest: u128 = self.elapsed_nanos + delta_rest;
        let rest_cycles: u128 = rest / self.max_nanos;
        let remainder: u128 = rest % self.max_nanos;
        proof {
            let period = self.max_nanos as int;
            lemma_fundamental_div_mod(delta_nanos as int, period);
            lemma_fundamental_div_mod(rest as int, period);
            assert((delta_cycles + rest_cycles) * period == delta_cycles * period + rest_cycles
                * period) by (nonlinear_arith);
            assert(period * delta_cycles == delta_cycles * period) by (nonlinear_arith);
            assert(period * rest_cycles == rest_cycles * period) by (nonlinear_arith);
            lemma_fundamental_div_mod_converse(
                self.elapsed_nanos + delta_nanos,
                period,
                delta_cycles + rest_cycles,
                remainder as int,
            );
        }
        let offered: u8 = if delta_cycles >= 255 {
            255
        } else if delta_cycles + rest_cycles >= 255 {
            255
        } else {
            (delta_cycles + rest_cycles) as u8
        };
        (offered, remainder)
    }

    /// Advance the cooldown by `delta_nanos` nanoseconds.
    ///
    /// Charges that are handed in are replenished as their [`CooldownStrategy`] says.
    /// A step that spans several periods is taken at once and loses none of them.
    pub fn tick_nanos(&mut self, delta_nanos: u128, charges: Option<&mut Charges>)
        requires
            old(self).wf(),
            charges matches Some(charges) ==> charges.wf(),
        ensures
            final(self).wf(),
            final(self)@ == old(self)@.tick(
                delta_nanos as nat,
                match charges {
                    Some(charges) => Some(charges@),
                    None => None,
                },
            ),
            charges matches Some(charges) ==> final(charges).wf() && final(charges)@ == old(
                self,
            )@.tick_charges(delta_nanos as nat, charges@),
    {
        // Don't tick cooldowns when they are fully elapsed
        if self.elapsed_nanos == self.max_nanos {
            return ;
        }
        match charges {
            Some(charges) => {
                match charges.cooldown_strategy() {
                    CooldownStrategy::Ignore => {
                        self.elapsed_nanos = self.advanced(delta_nanos);
                    },
                    CooldownStrategy::ConstantlyRefresh => {
                        let (n_completed, extra_time) = self.cycles(delta_nanos);
                        let excess_completions: u8 = charges.add_charges(n_completed);
                        if excess_completions == 0 {
                            self.elapsed_nanos = extra_time;
                        } else {
                            self.elapsed_nanos = self.max_nanos;
                        }
                    },
                    CooldownStrategy::RefreshWhenEmpty => {
                        let (n_completed, _) = self.cycles(delta_nanos);
                        if charges.charges() == 0 && n_completed >= 1 {
                            let max_charges: u8 = charges.max_charges();
                            charges.set_charges(max_charges);
                        }
                        self.elapsed_nanos = self.advanced(delta_nanos);
                    },
                }
            },
            None => {
                self.elapsed_nanos = self.advanced(delta_nanos);
            },
        }
    }

    /// Advance the cooldown by `delta_time`.
    ///
    /// Charges that are handed in are replenished as their [`CooldownStrategy`] says.
    pub fn tick(&mut self, delta_time: Duration, charges: Option<&mut Charges>)
        requires
            old(self).wf(),
            charges matches Some(charges) ==> charges.wf(),
        ensures
            final(self).wf(),
            final(self)@ == old(self)@.tick(
                duration_nanos(delta_time),
                match charges {
                    Some(charges) => Some(charges@),
                    None => None,
                },
            ),
            charges matches Some(charges) ==> final(charges).wf() && final(charges)@ == old(
                self,
            )@.tick_charges(duration_nanos(delta_time), charges@),
    {
        self.tick_nanos(nanos_of(delta_time), charges)
    }

    /// Is this action ready to be used?
    ///
    /// This is the case as soon as the whole period has elapsed, and not before.
    pub fn ready(&self) -> (outcome: Result<(), CannotUseAbility>)
        ensures
            outcome == self@.ready(),
    {
        if self.elapsed_nanos >= self.max_nanos {
            Ok(())
        } else {
            Err(CannotUseAbility::OnCooldown)
        }
    }

    /// Refreshes the cooldown, causing the underlying action to be ready to use immediately.
    pub fn refresh(&mut self)
        requires
            old(self).wf(),
        ensures
            final(self).wf(),
            final(self)@ == old(self)@.refresh(),
    {
        self.elapsed_nanos = self.max_nanos
    }

    /// Use the underlying cooldown if and only if it is ready, starting it over.
    ///
    /// If the cooldown was not ready, [`CannotUseAbility::OnCooldown`] is returned and this call has no effect.
    pub fn trigger(&mut self) -> (outcome: Result<(), CannotUseAbility>)
        requires
            old(self).wf(),
        ensures
            final(self).wf(),
            outcome == old(self)@.ready(),
            final(self)@ == old(self)@.trigger(),
            outcome is Err ==> *final(self) == *old(self),
    {
        match self.ready() {
            Ok(_) => {
                self.elapsed_nanos = 0;
                Ok(())
            },
            Err(error) => Err(error),
        }
    }

    /// Returns the time that it will take for this action to be ready to use again after being triggered.
    pub fn max_time(&self) -> (max_time: Duration)
        requires
            self.wf(),
        ensures
            duration_nanos(max_time) == self@.max_time,
    {
        duration_of(self.max_nanos)
    }

    /// Sets the time that it will take for this action to be ready to use again after being triggered.
    ///
    /// If more time has elapsed than the new max time, the elapsed time is cut off there.
    /// The provided max time cannot be [`Duration::ZERO`].
    pub fn set_max_time(&mut self, max_time: Duration)
        requires
            old(self).wf(),
            duration_nanos(max_time) > 0,
        ensures
            final(self).wf(),
            final(self)@ == old(self)@.set_max_time(duration_nanos(max_time)),
    {
        let max_nanos: u128 = nanos_of(max_time);
        let elapsed_nanos: u128 = if self.elapsed_nanos < max_nanos {
            self.elapsed_nanos
        } else {
            max_nanos
        };
        self.max_nanos = max_nanos;
        self.elapsed_nanos = elapsed_nanos;
    }

    /// Sets the max time as [`Cooldown::set_max_time`] does and returns `true`, unless
    /// `max_time` is [`Duration::ZERO`]: then nothing changes and `false` is returned.
    pub fn try_set_max_time(&mut self, max_time: Duration) -> (changed: bool)
        requires
            old(self).wf(),
        ensures
            final(self).wf(),
            changed == (duration_nanos(max_time) > 0),
            changed ==> final(self)@ == old(self)@.set_max_time(duration_nanos(max_time)),
            !changed ==> *final(self) == *old(self),
    {
        if nanos_of(max_time) == 0 {
            false
        } else {
            self.set_max_time(max_time);
            true
        }
    }

    /// Returns the time that has passed since the cooldown was triggered.
    pub fn elapsed(&self) -> (elapsed_time: Duration)
        requires
            self.wf(),
        ensures
            duration_nanos(elapsed_time) == self@.elapsed_time,
    {
        duration_of(self.elapsed_nanos)
    }

    /// Sets the time that has passed since the cooldown was triggered.
    ///
    /// This will always be clamped between [`Duration::ZERO`] and the `max_time` of this cooldown.
    pub fn set_elapsed(&mut self, elapsed_time: Duration)
        requires
            old(self).wf(),
        ensures
            final(self).wf(),
            final(self)@ == old(self)@.set_elapsed(duration_nanos(elapsed_time)),
    {
        let elapsed_nanos: u128 = nanos_of(elapsed_time);
        self.elapsed_nanos = if elapsed_nanos < self.max_nanos {
            elapsed_nanos
        } else {
            self.max_nanos
        };
    }

    /// Returns the time remaining until the action is ready.
    ///
    /// When a cooldown is ready, this will return [`Duration::ZERO`].
    pub fn remaining(&self) -> (time_remaining: Duration)
        requires
            self.wf(),
        ensures
            duration_nanos(time_remaining) == self@.remaining(),
    {
        duration_of(self.max_nanos - self.elapsed_nanos)
    }

    /// Sets the time remaining until the action is ready.
    ///
    /// This will always be clamped between [`Duration::ZERO`] and the `max_time` of this cooldown.
    pub fn set_remaining(&mut self, time_remaining: Duration)
        requires
            old(self).wf(),
        ensures
            final(self).wf(),
            final(self)@ == old(self)@.set_remaining(duration_nanos(time_remaining)),
    {
        let remaining_nanos: u128 = nanos_of(time_remaining);
        self.elapsed_nanos = if remaining_nanos < self.max_nanos {
            self.max_nanos - remaining_nanos
        } else {
            0
        };
    }
}

/// The cooldowns of every action, as a map from the index of the action.
pub open spec fn cooldown_views(entries: Map<usize, Cooldown>) -> Map<usize, CooldownView> {
    entries.map_values(|cooldown: Cooldown| cooldown@)
}

/// Taking views commutes with storing an entry.
proof fn lemma_cooldown_views_insert(entries: Map<usize, Cooldown>, index: usize)
    ensures
        forall|cooldown: Cooldown| #[trigger]
            cooldown_views(entries.insert(index, cooldown)) == cooldown_views(entries).insert(
                index,
                cooldown@,
            ),
{
    assert forall|cooldown: Cooldown| #[trigger]
        cooldown_views(entries.insert(index, cooldown)) == cooldown_views(entries).insert(
            index,
            cooldown@,
        ) by {
        assert(cooldown_views(entries.insert(index, cooldown)) =~= cooldown_views(entries).insert(
            index,
            cooldown@,
        ));
    }
}

/// The indices of a list of entries, in the order of the list.
pub open spec fn entry_indices(entries: Seq<(usize, &Cooldown)>) -> Seq<usize> {
    entries.map_values(|entry: (usize, &Cooldown)| entry.0)
}

/// The first `i + 1` elements of a sequence without repetitions are its first `i` elements
/// and one more, which is not among them.
proof fn lemma_take_next(s: Seq<usize>, i: int)
    requires
        0 <= i < s.len(),
        s.no_duplicates(),
    ensures
        !s.take(i).contains(s[i]),
        forall|x: usize| s.take(i + 1).contains(x) <==> s.take(i).contains(x) || x == s[i],
{
    assert(s.take(i + 1) =~= s.take(i).push(s[i]));
    assert forall|x: usize| s.take(i + 1).contains(x) <==> s.take(i).contains(x) || x == s[i] by {
        if s.take(i).contains(x) {
            let j = choose|j: int| 0 <= j < s.take(i).len() && s.take(i)[j] == x;
            assert(s.take(i + 1)[j] == x);
        }
        if x == s[i] {
            assert(s.take(i + 1)[i] == x);
        }
    }
    if s.take(i).contains(s[i]) {
        let j = choose|j: int| 0 <= j < s.take(i).len() && s.take(i)[j] == s[i];
        assert(s[j] == s[i]);
    }
}

/// The entries that a sequence of `(index, cooldown)` pairs describes:
/// where an index occurs more than once, the last pair counts.
pub open spec fn cooldowns_from_pairs(pairs: Seq<(usize, CooldownView)>) -> Map<usize, CooldownView>
    decreases pairs.len(),
{
    if pairs.len() == 0 {
        Map::empty()
    } else {
        cooldowns_from_pairs(pairs.drop_last()).insert(pairs.last().0, pairs.last().1)
    }
}

/// The charges that are coupled to the cooldown stored under `index`, if any.
pub open spec fn coupled_charges(
    charges: Option<Map<usize, ChargesView>>,
    index: usize,
) -> Option<ChargesView> {
    match charges {
        Some(charges) => if charges.contains_key(index) {
            Some(charges[index])
        } else {
            None
        },
        None => None,
    }
}

/// The mathematical content of a [`CooldownState`].
pub struct CooldownStateView {
    /// The cooldown of each action that has one, by the index of the action
    pub cooldowns: Map<usize, CooldownView>,
    /// The cooldown that all actions share, if there is one
    pub global_cooldown: Option<CooldownView>,
}

impl CooldownStateView {
    /// The invariant of the store: every cooldown in it is well-formed.
    pub open spec fn wf(self) -> bool {
        &&& forall|index: usize| #[trigger]
            self.cooldowns.contains_key(index) ==> self.cooldowns[index].wf()
        &&& self.global_cooldown matches Some(global_cooldown) ==> global_cooldown.wf()
    }

    /// What a check of the global cooldown reports: without one, nothing is held back.
    pub open spec fn gcd_ready(self) -> Result<(), CannotUseAbility> {
        match self.global_cooldown {
            Some(global_cooldown) => if global_cooldown.is_ready() {
                Ok(())
            } else {
                Err(CannotUseAbility::OnGlobalCooldown)
            },
            None => Ok(()),
        }
    }

    /// What a check of the cooldown stored under `index` reports:
    /// an action without a cooldown of its own is not held back by one.
    pub open spec fn own_ready(self, index: usize) -> Result<(), CannotUseAbility> {
        if self.cooldowns.contains_key(index) {
            self.cooldowns[index].ready()
        } else {
            Ok(())
        }
    }

    /// What a readiness check for the action stored under `index` reports:
    /// the global cooldown is looked at first, then the action's own.
    pub open spec fn ready(self, index: usize) -> Result<(), CannotUseAbility> {
        if self.gcd_ready() is Err {
            self.gcd_ready()
        } else {
            self.own_ready(index)
        }
    }

    /// The store after the cooldown stored under `index`, if any, was started over.
    pub open spec fn trigger_own(self, index: usize) -> CooldownStateView {
        if self.cooldowns.contains_key(index) {
            CooldownStateView {
                cooldowns: self.cooldowns.insert(index, self.cooldowns[index].trigger()),
                ..self
            }
        } else {
            self
        }
    }

    /// The store after the global cooldown, if any, was started over.
    pub open spec fn trigger_global(self) -> CooldownStateView {
        match self.global_cooldown {
            Some(global_cooldown) => CooldownStateView {
                global_cooldown: Some(global_cooldown.trigger()),
                ..self
            },
            None => self,
        }
    }

    /// The store after an attempt to use the action stored under `index`.
    ///
    /// If the action is ready, its own cooldown and the global cooldown are both started
    /// over, as far as they exist. If it is not, nothing changes.
    pub open spec fn trigger(self, index: usize) -> CooldownStateView {
        if self.ready(index) is Ok {
            self.trigger_own(index).trigger_global()
        } else {
            self
        }
    }

    /// The store after `delta` more time has passed.
    ///
    /// Every cooldown is advanced once, each together with the charges of its own action,
    /// if `charges` holds any. The global cooldown is advanced without charges.
    pub open spec fn tick(
        self,
        delta: nat,
        charges: Option<Map<usize, ChargesView>>,
    ) -> CooldownStateView {
        CooldownStateView {
            cooldowns: Map::new(
                |index: usize| self.cooldowns.contains_key(index),
                |index: usize| self.cooldowns[index].tick(delta, coupled_charges(charges, index)),
            ),
            global_cooldown: match self.global_cooldown {
                Some(global_cooldown) => Some(global_cooldown.tick(delta, None)),
                None => None,
            },
        }
    }

    /// The charges of every action after `delta` more time has passed:
    /// those of an action with a cooldown are replenished by it, all others stay as they are.
    pub open spec fn tick_charges(self, delta: nat, charges: Map<usize, ChargesView>) -> Map<
        usize,
        ChargesView,
    > {
        Map::new(
            |index: usize| charges.contains_key(index),
            |index: usize|
                if self.cooldowns.contains_key(index) {
                    self.cooldowns[index].tick_charges(delta, charges[index])
                } else {
                    charges[index]
                },
        )
    }
}

/// While the global cooldown is not ready, no action is, whether it has a cooldown of its
/// own or not, and this is what is reported for each of them, also for one whose own
/// cooldown is not ready either.
pub proof fn lemma_global_cooldown_is_reported_first(state: CooldownStateView, index: usize)
    requires
        state.gcd_ready() is Err,
    ensures
        state.ready(index) == Err::<(), CannotUseAbility>(CannotUseAbility::OnGlobalCooldown),
{
}

/// With a global cooldown, the use of any action holds back every action.
pub proof fn lemma_global_cooldown_holds_back_every_action(
    state: CooldownStateView,
    used: usize,
    other: usize,
)
    requires
        state.wf(),
        state.global_cooldown is Some,
        state.ready(used) is Ok,
    ensures
        state.trigger(used).ready(other) == Err::<(), CannotUseAbility>(
            CannotUseAbility::OnGlobalCooldown,
        ),
{
}

/// After the use of an action, the global cooldown holds back every action until its
/// period has passed, and no longer.
pub proof fn lemma_global_cooldown_elapses(
    state: CooldownStateView,
    used: usize,
    other: usize,
    delta: nat,
    charges: Option<Map<usize, ChargesView>>,
)
    requires
        state.wf(),
        state.ready(used) is Ok,
        state.global_cooldown matches Some(global_cooldown),
    ensures
        delta < state.global_cooldown->0.max_time ==> state.trigger(used).tick(delta, charges).ready(
            other,
        ) == Err::<(), CannotUseAbility>(CannotUseAbility::OnGlobalCooldown),
        delta >= state.global_cooldown->0.max_time ==> state.trigger(used).tick(
            delta,
            charges,
        ).gcd_ready() is Ok,
{
}

/// An attempt to use an action that is not ready changes nothing.
pub proof fn lemma_failed_trigger_changes_nothing(state: CooldownStateView, index: usize)
    requires
        state.ready(index) is Err,
    ensures
        state.trigger(index) == state,
{
}

/// The time until each action of type `A` can be used again.
///
/// Each action may be associated with a [`Cooldown`].
/// If it is not, it is always treated as being ready.
#[derive(Debug)]
pub struct CooldownState<A> {
    /// The [`Cooldown`] of each action
    /// If an entry is missing, the action can always be used
    cooldown_map: CooldownMap,
    /// A shared cooldown between all actions of type `A`.
    ///
    /// No action of type `A` will be ready unless this is ready.
    /// Whenever any action of type `A` is triggered, this global cooldown is triggered.
    pub global_cooldown: Option<Cooldown>,
    _phantom: PhantomData<A>,
}

impl<A> View for CooldownState<A> {
    type V = CooldownStateView;

    closed spec fn view(&self) -> CooldownStateView {
        CooldownStateView {
            cooldowns: cooldown_views(cooldown_entries(self.cooldown_map)),
            global_cooldown: match self.global_cooldown {
                Some(global_cooldown) => Some(global_cooldown@),
                None => None,
            },
        }
    }
}

impl<A> Default for CooldownState<A> {
    /// By default, cooldowns are not set.
    fn default() -> (state: Self)
        ensures
            state.wf(),
            state@ == (CooldownStateView { cooldowns: Map::empty(), global_cooldown: None }),
    {
        let state = CooldownState {
            cooldown_map: cooldown_map::empty(),
            global_cooldown: None,
            _phantom: PhantomData,
        };
        assert(state@.cooldowns =~= Map::empty());
        state
    }
}

impl<A> Clone for CooldownState<A> {
    fn clone(&self) -> (state: Self)
        ensures
            state@ == self@,
    {
        CooldownState {
            cooldown_map: cooldown_map::duplicate(&self.cooldown_map),
            global_cooldown: self.global_cooldown,
            _phantom: PhantomData,
        }
    }
}

impl<A> CooldownState<A> {
    /// The invariant of the store: every cooldown in it is well-formed.
    pub open spec fn wf(&self) -> bool {
        self@.wf()
    }

    /// Has the global cooldown for actions of type `A` expired?
    ///
    /// Returns `Ok(())` if no GCD is set.
    pub fn gcd_ready(&self) -> (outcome: Result<(), CannotUseAbility>)
        ensures
            outcome == self@.gcd_ready(),
    {
        match &self.global_cooldown {
            Some(global_cooldown) => match global_cooldown.ready() {
                Ok(_) => Ok(()),
                Err(_) => Err(CannotUseAbility::OnGlobalCooldown),
            },
            None => Ok(()),
        }
    }

    /// The indices of all actions that have a [`Cooldown`], each once, in no particular order.
    pub fn indices(&self) -> (indices: Vec<usize>)
        ensures
            indices@.no_duplicates(),
            forall|index: usize| indices@.contains(index) <==> self@.cooldowns.contains_key(index),
    {
        let indices: Vec<usize> = cooldown_map::keys(&self.cooldown_map);
        proof {
            assert forall|index: usize|
                indices@.contains(index) <==> self@.cooldowns.contains_key(index) by {}
        }
        indices
    }

    /// The [`Cooldown`] of each action that has one, with the index of the action: each
    /// action once, in no particular order.
    pub fn iter(&self) -> (all: Vec<(usize, &Cooldown)>)
        ensures
            entry_indices(all@).no_duplicates(),
            forall|index: usize|
                entry_indices(all@).contains(index) <==> self@.cooldowns.contains_key(index),
            forall|i: int|
                0 <= i < all.len() ==> self@.cooldowns.contains_key((#[trigger] all@[i]).0)
                    && all@[i].1@ == self@.cooldowns[all@[i].0],
    {
        let indices: Vec<usize> = self.indices();
        let mut all: Vec<(usize, &Cooldown)> = Vec::new();
        let mut i: usize = 0;
        while i < indices.len()
            invariant
                i <= indices.len(),
                forall|index: usize|
                    indices@.contains(index) <==> self@.cooldowns.contains_key(index),
                all.len() == i,
                entry_indices(all@) == indices@.take(i as int),
                forall|j: int|
                    0 <= j < all.len() ==> self@.cooldowns.contains_key((#[trigger] all@[j]).0)
                        && all@[j].1@ == self@.cooldowns[all@[j].0],
            decreases indices.len() - i,
        {
            let index: usize = indices[i];
            assert(indices@.contains(index));
            let ghost collected = all@;
            match self.get_at(index) {
                Some(cooldown) => {
                    all.push((index, cooldown));
                },
                None => {},
            }
            proof {
                assert(all@ == collected.push(all@[i as int]));
                assert(entry_indices(all@) =~= indices@.take(i + 1));
            }
            i += 1;
        }
        proof {
            assert(indices@.take(i as int) == indices@);
        }
        all
    }

    /// The cooldown stored under `index`, if any.
    pub fn get_at(&self, index: usize) -> (entry: Option<&Cooldown>)
        ensures
            match entry {
                Some(cooldown) => self@.cooldowns.contains_key(index) && cooldown@
                    == self@.cooldowns[index],
                None => !self@.cooldowns.contains_key(index),
            },
    {
        cooldown_map::get(&self.cooldown_map, index)
    }

    /// A mutable reference to the cooldown stored under `index`, if any.
    pub fn get_mut_at(&mut self, index: usize) -> (entry: Option<&mut Cooldown>)
        ensures
            match entry {
                Some(cooldown) => {
                    &&& old(self)@.cooldowns.contains_key(index)
                    &&& cooldown@ == old(self)@.cooldowns[index]
                    &&& final(self)@ == (CooldownStateView {
                        cooldowns: old(self)@.cooldowns.insert(index, final(cooldown)@),
                        ..old(self)@
                    })
                },
                None => !old(self)@.cooldowns.contains_key(index) && final(self)@ == old(self)@,
            },
    {
        proof {
            lemma_cooldown_views_insert(cooldown_entries(self.cooldown_map), index);
        }
        cooldown_map::get_mut(&mut self.cooldown_map, index)
    }

    /// Stores `cooldown` under `index`.
    pub fn set_at(&mut self, index: usize, cooldown: Cooldown)
        ensures
            final(self)@ == (CooldownStateView {
                cooldowns: old(self)@.cooldowns.insert(index, cooldown@),
                ..old(self)@
            }),
    {
        proof {
            lemma_cooldown_views_insert(cooldown_entries(self.cooldown_map), index);
        }
        let _ = cooldown_map::insert(&mut self.cooldown_map, index, cooldown);
    }

    /// Advances each underlying [`Cooldown`] by `delta_nanos` nanoseconds.
    ///
    /// The cooldown of each action is advanced together with the charges of that action,
    /// if `maybe_charges` holds any. The global cooldown never replenishes charges.
    pub fn tick_nanos(&mut self, delta_nanos: u128, maybe_charges: Option<&mut ChargeState<A>>)
        requires
            old(self).wf(),
            maybe_charges matches Some(charges) ==> charges.wf(),
        ensures
            final(self).wf(),
            final(self)@ == old(self)@.tick(
                delta_nanos as nat,
                match maybe_charges {
                    Some(charges) => Some(charges@),
                    None => None,
                },
            ),
            maybe_charges matches Some(charges) ==> final(charges).wf() && final(charges)@ == old(
                self,
            )@.tick_charges(delta_nanos as nat, charges@),
    {
        let action_list: Vec<usize> = self.indices();
        let ghost before = self@;
        let ghost delta = delta_nanos as nat;
        match maybe_charges {
            Some(charge_state) => {
                let ghost charges_before = charge_state@;
                let mut i: usize = 0;
                while i < action_list.len()
                    invariant
                        i <= action_list.len(),
                        delta == delta_nanos as nat,
                        action_list@.no_duplicates(),
                        forall|index: usize|
                            action_list@.contains(index) <==> before.cooldowns.contains_key(index),
                        self.wf(),
                        charge_state.wf(),
                        self@.global_cooldown == before.global_cooldown,
                        self@.cooldowns.dom() == before.cooldowns.dom(),
                        charge_state@.dom() == charges_before.dom(),
                        forall|index: usize| #[trigger]
                            before.cooldowns.contains_key(index) ==> self@.cooldowns[index] == (
                            if action_list@.take(i as int).contains(index) {
                                before.cooldowns[index].tick(
                                    delta,
                                    coupled_charges(Some(charges_before), index),
                                )
                            } else {
                                before.cooldowns[index]
                            }),
                        forall|index: usize| #[trigger]
                            charges_before.contains_key(index) ==> charge_state@[index] == (
                            if action_list@.take(i as int).contains(index) {
                                before.cooldowns[index].tick_charges(delta, charges_before[index])
                            } else {
                                charges_before[index]
                            }),
                    decreases action_list.len() - i,
                {
                    let index: usize = action_list[i];
                    proof {
                        lemma_take_next(action_list@, i as int);
                        assert(action_list@.contains(index));
                    }
                    match self.get_mut_at(index) {
                        Some(cooldown) => {
                            let charges = charge_state.get_mut_at(index);
                            cooldown.tick_nanos(delta_nanos, charges);
                        },
                        None => {},
                    }
                    proof {
                        assert(self@.cooldowns.dom() =~= before.cooldowns.dom());
                        assert(charge_state@.dom() =~= charges_before.dom());
                    }
                    i += 1;
                }
                proof {
                    assert(action_list@.take(i as int) == action_list@);
                    assert(charge_state@ =~= before.tick_charges(delta, charges_before));
                    assert(self@.cooldowns =~= before.tick(delta, Some(charges_before)).cooldowns);
                }
            },
            None => {
                let mut i: usize = 0;
                while i < action_list.len()
                    invariant
                        i <= action_list.len(),
                        delta == delta_nanos as nat,
                        action_list@.no_duplicates(),
                        forall|index: usize|
                            action_list@.contains(index) <==> before.cooldowns.contains_key(index),
                        self.wf(),
                        self@.global_cooldown == before.global_cooldown,
                        self@.cooldowns.dom() == before.cooldowns.dom(),
                        forall|index: usize| #[trigger]
                            before.cooldowns.contains_key(index) ==> self@.cooldowns[index] == (
                            if action_list@.take(i as int).contains(index) {
                                before.cooldowns[index].tick(delta, None)
                            } else {
                                before.cooldowns[index]
                            }),
                    decreases action_list.len() - i,
                {
                    let index: usize = action_list[i];
                    proof {
                        lemma_take_next(action_list@, i as int);
                        assert(action_list@.contains(index));
                    }
                    match self.get_mut_at(index) {
                        Some(cooldown) => {
                            cooldown.tick_nanos(delta_nanos, None);
                        },
                        None => {},
                    }
                    proof {
                        assert(self@.cooldowns.dom() =~= before.cooldowns.dom());
                    }
                    i += 1;
                }
                proof {
                    assert(action_list@.take(i as int) == action_list@);
                    assert(self@.cooldowns =~= before.tick(delta, None).cooldowns);
                }
            },
        }
        match &mut self.global_cooldown {
            Some(global_cooldown) => {
                global_cooldown.tick_nanos(delta_nanos, None);
            },
            None => {},
        }
    }

    /// Advances each underlying [`Cooldown`] according to the elapsed `delta_time`.
    ///
    /// The cooldown of each action is advanced together with the charges of that action,
    /// if `maybe_charges` holds any. The global cooldown never replenishes charges.
    pub fn tick(&mut self, delta_time: Duration, maybe_charges: Option<&mut ChargeState<A>>)
        requires
            old(self).wf(),
            maybe_charges matches Some(charges) ==> charges.wf(),
        ensures
            final(self).wf(),
            final(self)@ == old(self)@.tick(
                duration_nanos(delta_time),
                match maybe_charges {
                    Some(charges) => Some(charges@),
                    None => None,
                },
            ),
            maybe_charges matches Some(charges) ==> final(charges).wf() && final(charges)@ == old(
                self,
            )@.tick_charges(duration_nanos(delta_time), charges@),
    {
        self.tick_nanos(nanos_of(delta_time), maybe_charges)
    }
}

impl<A: Abilitylike> CooldownState<A> {


    /// Can the corresponding `action` be used?
    ///
    /// The global cooldown is checked first: while it is not ready, no action is.
    /// Then the cooldown of the action itself is checked, if it has one.
    pub fn ready(&self, action: &A) -> (outcome: Result<(), CannotUseAbility>)
        ensures
            outcome == self@.ready(action.action_index()),
    {
        match self.gcd_ready() {
            Ok(_) => match self.get(action) {
                Some(cooldown) => cooldown.ready(),
                None => Ok(()),
            },
            Err(error) => Err(error),
        }
    }

    /// Triggers the cooldown of the `action` if it is available to be used.
    ///
    /// This can be paired with [`CooldownState::ready`],
    /// to check if the action can be used before triggering its cooldown,
    /// or this can be used on its own,
    /// reading the returned [`Result`] to determine if the ability was used.
    ///
    /// A failed call changes nothing.
    pub fn trigger(&mut self, action: &A) -> (outcome: Result<(), CannotUseAbility>)
        requires
            old(self).wf(),
        ensures
            final(self).wf(),
            outcome == old(self)@.ready(action.action_index()),
            final(self)@ == old(self)@.trigger(action.action_index()),
            outcome is Err ==> final(self)@ == old(self)@,
    {
        match self.ready(action) {
            Ok(_) => {},
            Err(error) => {
                return Err(error);
            },
        }
        match self.get_mut(action) {
            Some(cooldown) => {
                let _ = cooldown.trigger();
            },
            None => {},
        }
        match &mut self.global_cooldown {
            Some(global_cooldown) => {
                let _ = global_cooldown.trigger();
            },
            None => {},
        }
        Ok(())
    }

    /// Creates a new [`CooldownState`] from a list of `(action, cooldown)` pairs.
    ///
    /// If a [`Cooldown`] is not provided for an action, that action will be treated as if its cooldown is always available.
    /// Where an action occurs more than once, its last pair counts.
    ///
    /// To create an empty [`CooldownState`] struct, use the [`Default::default`] method instead.
    pub fn new(action_cooldown_pairs: Vec<(A, Cooldown)>) -> (state: Self)
        requires
            forall|i: int|
                0 <= i < action_cooldown_pairs.len() ==> (#[trigger] action_cooldown_pairs[i]).1.wf(),
        ensures
            state.wf(),
            state@.global_cooldown is None,
            state@.cooldowns == cooldowns_from_pairs(
                action_cooldown_pairs@.map_values(
                    |pair: (A, Cooldown)| (pair.0.action_index(), pair.1@),
                ),
            ),
    {
        let ghost pairs = action_cooldown_pairs@.map_values(
            |pair: (A, Cooldown)| (pair.0.action_index(), pair.1@),
        );
        let mut cooldowns: CooldownState<A> = CooldownState::default();
        let mut i: usize = 0;
        while i < action_cooldown_pairs.len()
            invariant
                i <= action_cooldown_pairs.len(),
                cooldowns.wf(),
                cooldowns@.global_cooldown is None,
                pairs == action_cooldown_pairs@.map_values(
                    |pair: (A, Cooldown)| (pair.0.action_index(), pair.1@),
                ),
                cooldowns@.cooldowns == cooldowns_from_pairs(pairs.take(i as int)),
                forall|i: int|
                    0 <= i < action_cooldown_pairs.len() ==> (#[trigger] action_cooldown_pairs[i]).1.wf(),
            decreases action_cooldown_pairs.len() - i,
        {
            let index: usize = action_cooldown_pairs[i].0.index();
            let cooldown: Cooldown = action_cooldown_pairs[i].1;
            proof {
                assert(pairs.take(i + 1).drop_last() == pairs.take(i as int));
                assert(pairs.take(i + 1).last() == (index, cooldown@));
            }
            cooldowns.set_at(index, cooldown);
            i += 1;
        }
        proof {
            assert(pairs.take(i as int) == pairs);
        }
        cooldowns
    }



    /// The cooldown associated with the specified `action`, if any.
    pub fn get(&self, action: &A) -> (entry: Option<&Cooldown>)
        ensures
            match entry {
                Some(cooldown) => self@.cooldowns.contains_key(action.action_index()) && cooldown@
                    == self@.cooldowns[action.action_index()],
                None => !self@.cooldowns.contains_key(action.action_index()),
            },
    {
        let index: usize = action.index();
        self.get_at(index)
    }



    /// A mutable reference to the cooldown associated with the specified `action`, if any.
    pub fn get_mut(&mut self, action: &A) -> (entry: Option<&mut Cooldown>)
        ensures
            match entry {
                Some(cooldown) => {
                    &&& old(self)@.cooldowns.contains_key(action.action_index())
                    &&& cooldown@ == old(self)@.cooldowns[action.action_index()]
                    &&& final(self)@ == (CooldownStateView {
                        cooldowns: old(self)@.cooldowns.insert(
                            action.action_index(),
                            final(cooldown)@,
                        ),
                        ..old(self)@
                    })
                },
                None => !old(self)@.cooldowns.contains_key(action.action_index()) && final(self)@
                    == old(self)@,
            },
    {
        let index: usize = action.index();
        self.get_mut_at(index)
    }


    /// Set a cooldown for the specified `action`.
    ///
    /// If a cooldown already existed, it will be replaced by the new cooldown.
    pub fn set(&mut self, action: A, cooldown: Cooldown) -> (state: &mut Self)
        requires
            old(self).wf(),
            cooldown.wf(),
        ensures
            state.wf(),
            state@ == (CooldownStateView {
                cooldowns: old(self)@.cooldowns.insert(action.action_index(), cooldown@),
                ..old(self)@
            }),
            *final(self) == *final(state),
    {
        let index: usize = action.index();
        self.set_at(index, cooldown);
        self
    }

    /// Collects a `&mut Self` into a `Self`.
    ///
    /// Used to conclude the builder pattern.
    pub fn build(&mut self) -> (state: Self)
        ensures
            state@ == old(self)@,
            *final(self) == *old(self),
    {
        self.clone()
    }
}

} // verus!
