use core::time::Duration;
use leafwing_abilities::charges::{ChargeState, Charges};
use leafwing_abilities::cooldown::{Cooldown, CooldownState};
use leafwing_abilities::systems::tick_cooldowns;
use leafwing_abilities::{Abilitylike, CannotUseAbility};

#[derive(Debug, Clone, Copy, Hash, PartialEq, Eq)]
enum Action {
    NoCooldown,
    Short,
    Long,
}

impl Abilitylike for Action {
    fn action_index(&self) -> usize {
        *self as usize
    }

    fn index(&self) -> usize {
        *self as usize
    }
}

impl Action {
    fn variants() -> impl Iterator<Item = Action> {
        [Action::NoCooldown, Action::Short, Action::Long].iter().copied()
    }

    fn cooldown(&self) -> Option<Cooldown> {
        match self {
            Action::NoCooldown => None,
            Action::Short => Some(Cooldown::new(Duration::from_secs_f32(0.1))),
            Action::Long => Some(Cooldown::new(Duration::from_secs_f32(1.))),
        }
    }

    fn cooldowns() -> CooldownState<Action> {
        let mut cd = CooldownState::default();
        for action in Action::variants() {
            if let Some(cooldown) = action.cooldown() {
                cd.set(action, cooldown);
            }
        }

        cd
    }
}

#[test]
fn cooldowns_in_resource() {
    let mut cooldowns = Action::cooldowns();

    // Cooldown start ready
    for action in Action::variants() {
        assert!(cooldowns.ready(&action).is_ok());
        let _ = cooldowns.trigger(&action);
    }

    cooldowns.tick(Duration::from_millis(1), None);

    // No waiting
    assert!(cooldowns.ready(&Action::NoCooldown).is_ok());
    assert_eq!(cooldowns.ready(&Action::Short), Err(CannotUseAbility::OnCooldown));
    assert_eq!(cooldowns.ready(&Action::Long), Err(CannotUseAbility::OnCooldown));

    cooldowns.tick(Duration::from_secs_f32(0.2), None);

    // Short wait
    assert!(cooldowns.ready(&Action::NoCooldown).is_ok());
    assert!(cooldowns.ready(&Action::Short).is_ok());
    assert_eq!(cooldowns.ready(&Action::Long), Err(CannotUseAbility::OnCooldown));
}

#[test]
fn cooldowns_on_entity() {
    let mut cooldowns = Some(Action::cooldowns());

    // Cooldown start ready
    for action in Action::variants() {
        assert!(cooldowns.as_ref().unwrap().ready(&action).is_ok());
        // Trigger all the cooldowns once
        let _ = cooldowns.as_mut().unwrap().trigger(&action);
    }

    tick_cooldowns(cooldowns.as_mut(), None, Duration::from_millis(1));

    // No waiting
    let state = cooldowns.as_ref().unwrap();
    assert!(state.ready(&Action::NoCooldown).is_ok());
    assert_eq!(state.ready(&Action::Short), Err(CannotUseAbility::OnCooldown));
    assert_eq!(state.ready(&Action::Long), Err(CannotUseAbility::OnCooldown));

    tick_cooldowns(cooldowns.as_mut(), None, Duration::from_secs_f32(0.2));

    // Short wait
    let state = cooldowns.as_ref().unwrap();
    assert!(state.ready(&Action::NoCooldown).is_ok());
    assert!(state.ready(&Action::Short).is_ok());
    assert_eq!(state.ready(&Action::Long), Err(CannotUseAbility::OnCooldown));
}

#[test]
fn global_cooldowns_tick() {
    let mut cooldowns = Action::cooldowns();
    let initial_gcd = Some(Cooldown::new(Duration::from_micros(15)));
    cooldowns.global_cooldown = initial_gcd.clone();
    // Trigger the GCD
    let _ = cooldowns.trigger(&Action::Long);

    cooldowns.tick(Duration::from_micros(1), None);

    assert_ne!(initial_gcd, cooldowns.global_cooldown);
    assert_eq!(
        cooldowns.global_cooldown.unwrap().elapsed(),
        Duration::from_micros(1)
    );
}

#[test]
fn global_cooldown_blocks_cooldownless_actions() {
    let mut cooldowns = Action::cooldowns();
    cooldowns.global_cooldown = Some(Cooldown::new(Duration::from_micros(15)));

    assert!(cooldowns.ready(&Action::NoCooldown).is_ok());

    let _ = cooldowns.trigger(&Action::NoCooldown);
    assert_eq!(
        cooldowns.ready(&Action::NoCooldown),
        Err(CannotUseAbility::OnGlobalCooldown)
    );

    cooldowns.tick(Duration::from_micros(30), None);

    assert!(cooldowns.ready(&Action::NoCooldown).is_ok());
}

#[test]
fn global_cooldown_holds_back_every_action() {
    let mut cooldowns = Action::cooldowns();
    cooldowns.global_cooldown = Some(Cooldown::new(Duration::from_micros(15)));
    assert_eq!(cooldowns.trigger(&Action::Long), Ok(()));
    for action in Action::variants() {
        assert_eq!(
            cooldowns.ready(&action),
            Err(CannotUseAbility::OnGlobalCooldown)
        );
    }
    assert_eq!(cooldowns.gcd_ready(), Err(CannotUseAbility::OnGlobalCooldown));

    cooldowns.tick(Duration::from_micros(14), None);
    for action in Action::variants() {
        assert_eq!(
            cooldowns.ready(&action),
            Err(CannotUseAbility::OnGlobalCooldown)
        );
    }

    cooldowns.tick(Duration::from_micros(1), None);
    assert_eq!(cooldowns.gcd_ready(), Ok(()));
    assert!(cooldowns.ready(&Action::NoCooldown).is_ok());
    assert!(cooldowns.ready(&Action::Short).is_ok());
    assert_eq!(
        cooldowns.ready(&Action::Long),
        Err(CannotUseAbility::OnCooldown)
    );
}

#[test]
fn global_cooldown_is_reported_before_own_cooldown() {
    let mut cooldowns = Action::cooldowns();
    cooldowns.global_cooldown = Some(Cooldown::new(Duration::from_millis(500)));
    assert_eq!(cooldowns.trigger(&Action::Short), Ok(()));
    // Both the global cooldown and the action's own are running.
    assert_eq!(
        cooldowns.get(&Action::Short).unwrap().ready(),
        Err(CannotUseAbility::OnCooldown)
    );
    assert_eq!(
        cooldowns.ready(&Action::Short),
        Err(CannotUseAbility::OnGlobalCooldown)
    );

    // Let per-action cooldown elapse
    cooldowns.tick(Duration::from_millis(250), None);
    assert!(cooldowns.get(&Action::Short).unwrap().ready().is_ok());
    assert_eq!(
        cooldowns.ready(&Action::Short),
        Err(CannotUseAbility::OnGlobalCooldown)
    );

    // Wait for full GCD to expire
    cooldowns.tick(Duration::from_millis(250), None);
    assert!(cooldowns.ready(&Action::Short).is_ok());
}

#[test]
fn failed_trigger_leaves_own_cooldown_alone() {
    let mut cooldowns = Action::cooldowns();
    cooldowns.global_cooldown = Some(Cooldown::new(Duration::from_millis(500)));
    assert_eq!(cooldowns.trigger(&Action::Long), Ok(()));

    cooldowns.tick(Duration::from_millis(250), None);

    // Action::Short is ready itself, but the GCD prevents it,
    // and Action::Short is still ready after failing to trigger.
    assert_eq!(
        cooldowns.trigger(&Action::Short),
        Err(CannotUseAbility::OnGlobalCooldown)
    );
    let short_cooldown = cooldowns.get(&Action::Short).unwrap();
    assert!(short_cooldown.ready().is_ok());
    assert_eq!(
        cooldowns.global_cooldown.unwrap().elapsed(),
        Duration::from_millis(250)
    );

    // Wait for full GCD to expire
    cooldowns.tick(Duration::from_millis(250), None);
    assert!(cooldowns.ready(&Action::Short).is_ok());

    // An action on its own cooldown fails without touching the global cooldown.
    assert_eq!(
        cooldowns.trigger(&Action::Long),
        Err(CannotUseAbility::OnCooldown)
    );
    assert_eq!(cooldowns.gcd_ready(), Ok(()));
}

#[test]
fn trigger_starts_own_and_global_cooldown() {
    let mut cooldowns = Action::cooldowns();
    assert_eq!(cooldowns.trigger(&Action::NoCooldown), Ok(()));
    assert_eq!(cooldowns.trigger(&Action::NoCooldown), Ok(()));
    assert_eq!(cooldowns.trigger(&Action::Short), Ok(()));
    assert_eq!(
        cooldowns.trigger(&Action::Short),
        Err(CannotUseAbility::OnCooldown)
    );
    assert_eq!(
        cooldowns.get(&Action::Short).unwrap().elapsed(),
        Duration::ZERO
    );
    assert!(cooldowns.get(&Action::Long).unwrap().ready().is_ok());

    cooldowns.global_cooldown = Some(Cooldown::new(Duration::from_secs(1)));
    assert_eq!(cooldowns.trigger(&Action::NoCooldown), Ok(()));
    assert_eq!(
        cooldowns.global_cooldown.unwrap().elapsed(),
        Duration::ZERO
    );
}

#[test]
fn store_basics() {
    let mut cooldowns = CooldownState::new(vec![
        (Action::Short, Cooldown::new(Duration::from_secs(1))),
        (Action::Long, Cooldown::new(Duration::from_secs(2))),
        (Action::Short, Cooldown::new(Duration::from_secs(3))),
    ]);
    assert!(cooldowns.global_cooldown.is_none());
    assert!(cooldowns.get(&Action::NoCooldown).is_none());
    assert!(cooldowns.get_mut(&Action::NoCooldown).is_none());
    assert_eq!(
        cooldowns.get(&Action::Short).unwrap().max_time(),
        Duration::from_secs(3)
    );
    assert_eq!(
        cooldowns.get(&Action::Long).unwrap().max_time(),
        Duration::from_secs(2)
    );

    cooldowns
        .get_mut(&Action::Long)
        .unwrap()
        .set_elapsed(Duration::from_secs(1));
    assert_eq!(
        cooldowns.get(&Action::Long).unwrap().remaining(),
        Duration::from_secs(1)
    );
    assert_eq!(
        cooldowns.get(&Action::Short).unwrap().remaining(),
        Duration::ZERO
    );

    let copy = cooldowns
        .set(Action::NoCooldown, Cooldown::new(Duration::from_secs(9)))
        .build();
    cooldowns.get_mut(&Action::Long).unwrap().refresh();
    assert_eq!(
        copy.get(&Action::Long).unwrap().remaining(),
        Duration::from_secs(1)
    );
    assert_eq!(
        copy.get(&Action::NoCooldown).unwrap().max_time(),
        Duration::from_secs(9)
    );
    assert!(copy.global_cooldown.is_none());
}

#[test]
fn tick_couples_each_cooldown_with_its_own_charges() {
    let mut cooldowns = CooldownState::new(vec![
        (Action::Short, Cooldown::new(Duration::from_secs(1))),
        (Action::Long, Cooldown::new(Duration::from_secs(2))),
    ]);
    let mut charges = ChargeState::new(vec![
        (Action::Short, Charges::replenish_one(5)),
        (Action::Long, Charges::replenish_one(5)),
        (Action::NoCooldown, Charges::replenish_one(5)),
    ]);
    for action in Action::variants() {
        charges.get_mut(action).unwrap().set_charges(0);
    }
    cooldowns.global_cooldown = Some(Cooldown::new(Duration::from_secs(4)));
    assert_eq!(cooldowns.trigger(&Action::Short), Ok(()));
    cooldowns.get_mut(&Action::Long).unwrap().set_elapsed(Duration::ZERO);

    cooldowns.tick(Duration::from_secs(3), Some(&mut charges));

    assert_eq!(charges.get(Action::Short).unwrap().charges(), 3);
    assert_eq!(charges.get(Action::Long).unwrap().charges(), 1);
    assert_eq!(charges.get(Action::NoCooldown).unwrap().charges(), 0);
    assert_eq!(
        cooldowns.get(&Action::Short).unwrap().elapsed(),
        Duration::ZERO
    );
    assert_eq!(
        cooldowns.get(&Action::Long).unwrap().elapsed(),
        Duration::from_secs(1)
    );
    assert_eq!(
        cooldowns.global_cooldown.unwrap().elapsed(),
        Duration::from_secs(3)
    );

    // Without charges, the same step would have stopped both cooldowns at their period.
    let mut alone = CooldownState::new(vec![
        (Action::Short, Cooldown::new(Duration::from_secs(1))),
        (Action::Long, Cooldown::new(Duration::from_secs(2))),
    ]);
    let _ = alone.trigger(&Action::Short);
    let _ = alone.trigger(&Action::Long);
    alone.tick_nanos(3_000_000_000, None);
    assert!(alone.ready(&Action::Short).is_ok());
    assert!(alone.ready(&Action::Long).is_ok());
}

#[test]
fn charges_do_not_change_without_cooldowns() {
    let mut charges = Some(ChargeState::new(vec![(
        Action::Short,
        Charges::replenish_one(5),
    )]));
    charges
        .as_mut()
        .unwrap()
        .get_mut(Action::Short)
        .unwrap()
        .set_charges(1);
    tick_cooldowns::<Action>(None, charges.as_mut(), Duration::from_secs(100));
    assert_eq!(
        charges.as_ref().unwrap().get(Action::Short).unwrap().charges(),
        1
    );

    let mut cooldowns = Some(CooldownState::new(vec![(
        Action::Short,
        Cooldown::new(Duration::from_secs(1)),
    )]));
    let _ = cooldowns.as_mut().unwrap().trigger(&Action::Short);
    tick_cooldowns(cooldowns.as_mut(), charges.as_mut(), Duration::from_secs(2));
    assert_eq!(
        charges.as_ref().unwrap().get(Action::Short).unwrap().charges(),
        3
    );
}

#[test]
fn cooldown_state_hands_out_every_entry_once() {
    let mut cooldowns = Action::cooldowns();
    let mut indices = cooldowns.indices();
    indices.sort();
    assert_eq!(indices, vec![1, 2]);

    let mut entries: Vec<(usize, Duration)> = cooldowns
        .iter()
        .iter()
        .map(|(index, cooldown)| (*index, cooldown.max_time()))
        .collect();
    entries.sort();
    assert_eq!(
        entries,
        vec![
            (1, Duration::from_secs_f32(0.1)),
            (2, Duration::from_secs_f32(1.))
        ]
    );

    cooldowns.set_at(9, Cooldown::new(Duration::from_secs(3)));
    assert_eq!(cooldowns.iter().len(), 3);
    assert_eq!(
        cooldowns.get_at(9).unwrap().max_time(),
        Duration::from_secs(3)
    );
    let _ = cooldowns.get_mut_at(9).unwrap().trigger();
    assert_eq!(
        cooldowns.get_at(9).unwrap().remaining(),
        Duration::from_secs(3)
    );
    assert!(cooldowns.get_at(0).is_none());
    assert!(CooldownState::<Action>::default().iter().is_empty());
}
