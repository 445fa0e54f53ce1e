use leafwing_abilities::charges::{
    ChargeState, Charges, CooldownStrategy, ReplenishStrategy,
};
use leafwing_abilities::{Abilitylike, CannotUseAbility};

#[derive(Clone, Copy, Debug, PartialEq, Eq)]
enum Action {
    Jump,
    Dash,
    Spell,
}

impl Abilitylike for Action {
    fn action_index(&self) -> usize {
        *self as usize
    }

    fn index(&self) -> usize {
        *self as usize
    }
}

#[test]
fn charges_start_full() {
    let charges = Charges::simple(3);
    assert_eq!(charges.charges(), 3);
    assert_eq!(charges.max_charges(), 3);
}

#[test]
fn charges_available() {
    let mut charges = Charges::simple(3);
    assert!(charges.available());
    charges.set_charges(1);
    assert!(charges.available());
    charges.set_charges(0);
    assert!(!charges.available());
}

#[test]
fn charges_deplete() {
    let mut charges = Charges::simple(2);
    charges.expend().unwrap();
    assert_eq!(charges.charges(), 1);
    charges.expend().unwrap();
    assert_eq!(charges.charges(), 0);
    assert_eq!(charges.expend(), Err(CannotUseAbility::NoCharges));
    assert_eq!(charges.charges(), 0);
}

#[test]
fn charges_replenish_one_at_a_time() {
    let mut charges = Charges::replenish_one(3);
    charges.set_charges(0);
    assert_eq!(charges.charges(), 0);
    charges.replenish();
    assert_eq!(charges.charges(), 1);
    charges.replenish();
    assert_eq!(charges.charges(), 2);
    charges.replenish();
    assert_eq!(charges.charges(), 3);
    charges.replenish();
    assert_eq!(charges.charges(), 3);
}

#[test]
fn charges_replenish_all_at_once() {
    let mut charges = Charges::replenish_all(3);
    charges.set_charges(0);
    assert_eq!(charges.charges(), 0);
    charges.replenish();
    assert_eq!(charges.charges(), 3);
}

#[test]
fn constructors_pick_their_strategies() {
    let charges = Charges::new(4, ReplenishStrategy::AllAtOnce, CooldownStrategy::Ignore);
    assert_eq!(charges.charges(), 4);
    assert_eq!(charges.replenish_strategy(), ReplenishStrategy::AllAtOnce);
    assert_eq!(charges.cooldown_strategy(), CooldownStrategy::Ignore);

    assert_eq!(Charges::simple(1).replenish_strat, ReplenishStrategy::OneAtATime);
    assert_eq!(Charges::simple(1).cooldown_strat, CooldownStrategy::Ignore);
    assert_eq!(Charges::ammo(1).replenish_strat, ReplenishStrategy::AllAtOnce);
    assert_eq!(Charges::ammo(1).cooldown_strat, CooldownStrategy::Ignore);
    assert_eq!(Charges::replenish_one(1).replenish_strat, ReplenishStrategy::OneAtATime);
    assert_eq!(Charges::replenish_one(1).cooldown_strat, CooldownStrategy::ConstantlyRefresh);
    assert_eq!(Charges::replenish_all(1).replenish_strat, ReplenishStrategy::AllAtOnce);
    assert_eq!(Charges::replenish_all(1).cooldown_strat, CooldownStrategy::RefreshWhenEmpty);

    assert_eq!(ReplenishStrategy::default(), ReplenishStrategy::OneAtATime);
    assert_eq!(CooldownStrategy::default(), CooldownStrategy::ConstantlyRefresh);
    assert_eq!(Charges::default().max_charges(), 0);
    assert_eq!(Charges::default().charges(), 0);
}

#[test]
fn expend_succeeds_exactly_max_times() {
    for max in [0u8, 1, 2, 7, 255] {
        let mut charges = Charges::simple(max);
        for used in 0..max {
            assert_eq!(charges.charges(), max - used);
            assert_eq!(charges.expend(), Ok(()));
        }
        assert_eq!(charges.charges(), 0);
        assert_eq!(charges.expend(), Err(CannotUseAbility::NoCharges));
        assert_eq!(charges.charges(), 0);
        assert_eq!(charges.max_charges(), max);
    }
}

#[test]
fn add_charges_reports_what_did_not_fit() {
    let mut charges = Charges::simple(5);
    charges.set_charges(3);
    assert_eq!(charges.add_charges(1), 0);
    assert_eq!(charges.charges(), 4);
    assert_eq!(charges.add_charges(4), 3);
    assert_eq!(charges.charges(), 5);
    assert_eq!(charges.add_charges(0), 0);
    assert_eq!(charges.charges(), 5);
    assert_eq!(charges.add_charges(255), 255);
    assert_eq!(charges.charges(), 5);

    let mut wide = Charges::simple(255);
    wide.set_charges(250);
    assert_eq!(wide.add_charges(10), 5);
    assert_eq!(wide.charges(), 255);
}

#[test]
fn set_charges_reports_what_did_not_fit() {
    let mut charges = Charges::simple(5);
    assert_eq!(charges.set_charges(2), 0);
    assert_eq!(charges.charges(), 2);
    assert_eq!(charges.set_charges(9), 4);
    assert_eq!(charges.charges(), 5);
    assert_eq!(charges.set_charges(5), 0);
    assert_eq!(charges.charges(), 5);
}

#[test]
fn set_max_charges_cuts_the_count_down() {
    let mut charges = Charges::simple(5);
    charges.set_max_charges(3);
    assert_eq!(charges.max_charges(), 3);
    assert_eq!(charges.charges(), 3);
    charges.set_max_charges(8);
    assert_eq!(charges.max_charges(), 8);
    assert_eq!(charges.charges(), 3);
    charges.set_max_charges(0);
    assert_eq!(charges.charges(), 0);
    assert!(!charges.available());
}

#[test]
fn replenish_reports_what_did_not_fit() {
    let mut one = Charges::replenish_one(2);
    one.set_charges(1);
    assert_eq!(one.replenish(), 0);
    assert_eq!(one.replenish(), 1);
    assert_eq!(one.charges(), 2);

    let mut all = Charges::replenish_all(4);
    all.set_charges(1);
    assert_eq!(all.replenish(), 1);
    assert_eq!(all.charges(), 4);
    all.set_charges(0);
    assert_eq!(all.replenish(), 0);
    assert_eq!(all.charges(), 4);
}

#[test]
fn count_never_exceeds_max() {
    let mut charges = Charges::replenish_all(3);
    let steps: [u8; 12] = [0, 1, 2, 3, 0, 0, 2, 1, 3, 3, 1, 2];
    for (turn, step) in steps.iter().enumerate() {
        match step {
            0 => {
                let _ = charges.expend();
            }
            1 => {
                charges.replenish();
            }
            2 => {
                let _ = charges.add_charges(turn as u8);
            }
            _ => {
                charges.set_charges(200);
            }
        }
        assert!(charges.charges() <= charges.max_charges());
    }
}

#[test]
fn empty_charge_state_limits_nothing() {
    let mut charge_state = ChargeState::<Action>::default();
    assert!(charge_state.available(Action::Jump));
    assert!(charge_state.get(Action::Dash).is_none());
    assert!(charge_state.get_mut(Action::Dash).is_none());
    assert_eq!(charge_state.expend(Action::Spell), Ok(()));
    charge_state.replenish(Action::Spell);
    assert!(charge_state.get(Action::Spell).is_none());
}

#[test]
fn charge_state_keeps_actions_apart() {
    let mut charge_state = ChargeState::new(vec![
        (Action::Jump, Charges::replenish_all(2)),
        (Action::Spell, Charges::replenish_one(3)),
    ]);
    assert_eq!(charge_state.expend(Action::Jump), Ok(()));
    assert_eq!(charge_state.expend(Action::Jump), Ok(()));
    assert_eq!(charge_state.expend(Action::Jump), Err(CannotUseAbility::NoCharges));
    assert!(!charge_state.available(Action::Jump));
    assert!(charge_state.available(Action::Spell));
    assert!(charge_state.available(Action::Dash));
    assert_eq!(charge_state.get(Action::Spell).unwrap().charges(), 3);

    charge_state.replenish(Action::Jump);
    assert_eq!(charge_state.get(Action::Jump).unwrap().charges(), 2);

    assert_eq!(charge_state.expend(Action::Spell), Ok(()));
    charge_state.replenish(Action::Spell);
    charge_state.replenish(Action::Spell);
    assert_eq!(charge_state.get(Action::Spell).unwrap().charges(), 3);
}

#[test]
fn charge_state_last_pair_counts() {
    let charge_state = ChargeState::new(vec![
        (Action::Jump, Charges::simple(2)),
        (Action::Jump, Charges::simple(7)),
    ]);
    assert_eq!(charge_state.get(Action::Jump).unwrap().max_charges(), 7);
}

#[test]
fn charge_state_get_mut_writes_through() {
    let mut charge_state = ChargeState::<Action>::default();
    charge_state.set(Action::Dash, Charges::simple(4));
    charge_state.get_mut(Action::Dash).unwrap().set_charges(1);
    assert_eq!(charge_state.get(Action::Dash).unwrap().charges(), 1);
    assert!(charge_state.get(Action::Jump).is_none());
}

#[test]
fn charge_state_builder() {
    let charge_state = ChargeState::default()
        .set(Action::Jump, Charges::replenish_all(2))
        .set(Action::Spell, Charges::replenish_one(3))
        .build();
    assert_eq!(charge_state.get(Action::Jump).unwrap().max_charges(), 2);
    assert_eq!(charge_state.get(Action::Spell).unwrap().max_charges(), 3);
    assert!(charge_state.get(Action::Dash).is_none());
}

#[test]
fn charge_state_hands_out_every_entry_once() {
    let mut charge_state = ChargeState::<Action>::default();
    assert!(charge_state.indices().is_empty());
    assert!(charge_state.iter().is_empty());
    charge_state.set(Action::Jump, Charges::simple(2));
    charge_state.set(Action::Spell, Charges::simple(5));
    charge_state.set_at(7, Charges::simple(9));

    let mut indices = charge_state.indices();
    let in_order: Vec<u8> = indices
        .iter()
        .map(|index| charge_state.get_at(*index).unwrap().max_charges())
        .collect();
    let handed_out: Vec<u8> = charge_state
        .iter()
        .iter()
        .map(|charges| charges.max_charges())
        .collect();
    assert_eq!(handed_out, in_order);
    indices.sort();
    assert_eq!(indices, vec![0, 2, 7]);

    for index in charge_state.indices() {
        let _ = charge_state.get_mut_at(index).unwrap().expend();
    }
    assert_eq!(charge_state.get(Action::Jump).unwrap().charges(), 1);
    assert_eq!(charge_state.get(Action::Spell).unwrap().charges(), 4);
    assert_eq!(charge_state.get_at(7).unwrap().charges(), 8);
    assert!(charge_state.get_mut_at(1).is_none());
}
