use core::time::Duration;
use leafwing_abilities::charges::{ChargeState, Charges};
use leafwing_abilities::cooldown::{Cooldown, CooldownState};
use leafwing_abilities::pool::{AbilityCosts, Pool};
use leafwing_abilities::premade_pools::mana::{Mana, ManaPool};
use leafwing_abilities::{
    AbilityStateItem, AbilityStateReadOnlyItem, Abilitylike, ActionState, ButtonState,
    CannotUseAbility, NullPool,
};

#[derive(Clone, Copy, Debug, PartialEq, Eq)]
enum TestAction {
    Duck,
    Cover,
    Shoot,
}

impl Abilitylike for TestAction {
    fn action_index(&self) -> usize {
        *self as usize
    }

    fn index(&self) -> usize {
        *self as usize
    }
}

struct Entity {
    action_state: ActionState<TestAction>,
    charges: ChargeState<TestAction>,
    cooldowns: CooldownState<TestAction>,
    pool: ManaPool,
    ability_costs: AbilityCosts<TestAction, ManaPool>,
}

impl Entity {
    fn new() -> Self {
        Entity {
            action_state: ActionState::default(),
            charges: ChargeState::new(vec![(TestAction::Shoot, Charges::ammo(2))]),
            cooldowns: CooldownState::new(vec![(
                TestAction::Duck,
                Cooldown::new(Duration::from_secs(1)),
            )]),
            pool: ManaPool::new(Mana(5), Mana(5), Mana(0)),
            ability_costs: AbilityCosts::new(vec![
                (TestAction::Cover, Mana(3)),
                (TestAction::Shoot, Mana(1)),
            ]),
        }
    }

    fn item(&mut self) -> AbilityStateItem<'_, TestAction, ManaPool> {
        AbilityStateItem {
            action_state: &self.action_state,
            charges: &mut self.charges,
            cooldowns: &mut self.cooldowns,
            pool: Some(&mut self.pool),
            ability_costs: Some(&mut self.ability_costs),
        }
    }

    fn read_only(&self) -> AbilityStateReadOnlyItem<'_, TestAction, ManaPool> {
        AbilityStateReadOnlyItem {
            action_state: &self.action_state,
            charges: &self.charges,
            cooldowns: &self.cooldowns,
            pool: Some(&self.pool),
            ability_costs: Some(&self.ability_costs),
        }
    }
}

#[test]
fn action_state_reports_what_was_written_down() {
    let mut action_state = ActionState::<TestAction>::default();
    assert_eq!(action_state.get(TestAction::Duck), ButtonState::Released);
    assert!(!action_state.pressed(TestAction::Duck));
    assert!(!action_state.just_pressed(TestAction::Duck));

    action_state.set(TestAction::Duck, ButtonState::JustPressed);
    assert!(action_state.pressed(TestAction::Duck));
    assert!(action_state.just_pressed(TestAction::Duck));
    assert!(!action_state.pressed(TestAction::Cover));

    action_state.set(TestAction::Duck, ButtonState::Pressed);
    assert!(action_state.pressed(TestAction::Duck));
    assert!(!action_state.just_pressed(TestAction::Duck));

    action_state.set(TestAction::Duck, ButtonState::Released);
    assert!(!action_state.pressed(TestAction::Duck));
    assert_eq!(action_state.get(TestAction::Duck), ButtonState::Released);
}

#[test]
fn not_pressed_wins_over_readiness() {
    let mut entity = Entity::new();
    // Everything is ready, nothing is pressed.
    for action in [TestAction::Duck, TestAction::Cover, TestAction::Shoot] {
        assert_eq!(entity.read_only().ready(action), Ok(()));
        assert_eq!(
            entity.read_only().ready_and_pressed(action),
            Err(CannotUseAbility::NotPressed)
        );
        assert_eq!(
            entity.read_only().ready_and_just_pressed(action),
            Err(CannotUseAbility::NotPressed)
        );
        assert_eq!(entity.item().ready(action), Ok(()));
        assert_eq!(
            entity.item().ready_and_pressed(action),
            Err(CannotUseAbility::NotPressed)
        );
        assert_eq!(
            entity.item().ready_and_just_pressed(action),
            Err(CannotUseAbility::NotPressed)
        );
        assert_eq!(
            entity.item().trigger_if_pressed(action),
            Err(CannotUseAbility::NotPressed)
        );
        assert_eq!(
            entity.item().trigger_if_just_pressed(action),
            Err(CannotUseAbility::NotPressed)
        );
    }
    assert_eq!(entity.pool.current(), Mana(5));
    assert_eq!(entity.charges.get(TestAction::Shoot).unwrap().charges(), 2);

    // Nothing is ready, nothing is pressed: still not pressed.
    entity.pool.set_current(Mana(0));
    entity.charges.get_mut(TestAction::Shoot).unwrap().set_charges(0);
    let _ = entity.cooldowns.get_mut(&TestAction::Duck).unwrap().trigger();
    for action in [TestAction::Duck, TestAction::Cover, TestAction::Shoot] {
        assert_eq!(
            entity.read_only().ready_and_pressed(action),
            Err(CannotUseAbility::NotPressed)
        );
        assert_eq!(
            entity.item().trigger_if_just_pressed(action),
            Err(CannotUseAbility::NotPressed)
        );
    }
}

#[test]
fn pressed_actions_report_their_readiness() {
    let mut entity = Entity::new();
    entity.action_state.set(TestAction::Duck, ButtonState::JustPressed);
    entity.action_state.set(TestAction::Cover, ButtonState::Pressed);
    entity.action_state.set(TestAction::Shoot, ButtonState::JustPressed);

    assert_eq!(entity.read_only().ready_and_pressed(TestAction::Cover), Ok(()));
    assert_eq!(
        entity.read_only().ready_and_just_pressed(TestAction::Cover),
        Err(CannotUseAbility::NotPressed)
    );
    assert_eq!(entity.item().ready_and_pressed(TestAction::Cover), Ok(()));
    assert_eq!(
        entity.item().ready_and_just_pressed(TestAction::Cover),
        Err(CannotUseAbility::NotPressed)
    );
    assert_eq!(entity.item().ready_and_just_pressed(TestAction::Duck), Ok(()));

    // Held since an earlier step: not triggered.
    assert_eq!(
        entity.item().trigger_if_pressed(TestAction::Cover),
        Err(CannotUseAbility::NotPressed)
    );
    assert_eq!(entity.pool.current(), Mana(5));

    assert_eq!(entity.item().trigger_if_just_pressed(TestAction::Duck), Ok(()));
    assert_eq!(
        entity.item().trigger_if_just_pressed(TestAction::Duck),
        Err(CannotUseAbility::OnCooldown)
    );
    assert_eq!(
        entity.read_only().ready_and_pressed(TestAction::Duck),
        Err(CannotUseAbility::OnCooldown)
    );

    assert_eq!(entity.item().trigger_if_pressed(TestAction::Shoot), Ok(()));
    assert_eq!(entity.item().trigger(TestAction::Shoot), Ok(()));
    assert_eq!(
        entity.item().trigger_if_pressed(TestAction::Shoot),
        Err(CannotUseAbility::NoCharges)
    );
    assert_eq!(
        entity.read_only().ready_and_just_pressed(TestAction::Shoot),
        Err(CannotUseAbility::NoCharges)
    );
    assert_eq!(entity.pool.current(), Mana(3));

    assert_eq!(entity.item().trigger(TestAction::Cover), Ok(()));
    assert_eq!(entity.pool.current(), Mana(0));
    assert_eq!(
        entity.item().trigger(TestAction::Cover),
        Err(CannotUseAbility::PoolInsufficient)
    );
    assert_eq!(
        entity.read_only().ready_and_pressed(TestAction::Cover),
        Err(CannotUseAbility::PoolInsufficient)
    );
}

#[test]
fn global_cooldown_is_reported_after_own_cooldown() {
    let mut entity = Entity::new();
    entity.action_state.set(TestAction::Duck, ButtonState::JustPressed);
    entity.cooldowns.global_cooldown = Some(Cooldown::new(Duration::from_secs(2)));
    let _ = entity.cooldowns.trigger(&TestAction::Duck);
    assert_eq!(
        entity.read_only().ready_and_pressed(TestAction::Duck),
        Err(CannotUseAbility::OnCooldown)
    );
    entity.cooldowns.tick(Duration::from_secs(1), None);
    assert_eq!(
        entity.read_only().ready_and_pressed(TestAction::Duck),
        Err(CannotUseAbility::OnGlobalCooldown)
    );
    assert_eq!(
        entity.item().trigger_if_just_pressed(TestAction::Duck),
        Err(CannotUseAbility::OnGlobalCooldown)
    );
    entity.cooldowns.tick(Duration::from_secs(1), None);
    assert_eq!(entity.item().trigger_if_just_pressed(TestAction::Duck), Ok(()));
}

#[test]
fn items_work_without_a_pool() {
    let action_state = ActionState::<TestAction>::default();
    let mut charges = ChargeState::new(vec![(TestAction::Shoot, Charges::ammo(1))]);
    let mut cooldowns = CooldownState::default();
    {
        let read_only: AbilityStateReadOnlyItem<'_, TestAction, NullPool> =
            AbilityStateReadOnlyItem {
                action_state: &action_state,
                charges: &charges,
                cooldowns: &cooldowns,
                pool: None,
                ability_costs: None,
            };
        assert_eq!(read_only.ready(TestAction::Shoot), Ok(()));
    }
    let mut item: AbilityStateItem<'_, TestAction, NullPool> = AbilityStateItem {
        action_state: &action_state,
        charges: &mut charges,
        cooldowns: &mut cooldowns,
        pool: None,
        ability_costs: None,
    };
    assert_eq!(item.trigger(TestAction::Shoot), Ok(()));
    assert_eq!(item.trigger(TestAction::Shoot), Err(CannotUseAbility::NoCharges));
    assert_eq!(item.trigger(TestAction::Cover), Ok(()));
}
