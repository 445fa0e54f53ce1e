use core::time::Duration;
use leafwing_abilities::pool::{AbilityCosts, MaxPoolLessThanMin, Pool, RegeneratingPool};
use leafwing_abilities::premade_pools::life::{Life, LifePool};
use leafwing_abilities::premade_pools::mana::{Mana, ManaPool};
use leafwing_abilities::systems::regenerate_resource_pool;
use leafwing_abilities::{Abilitylike, CannotUseAbility};

#[derive(Debug, Clone, Copy, PartialEq, Eq)]
enum Spell {
    Spark,
    Fireball,
    Cantrip,
}

impl Abilitylike for Spell {
    fn action_index(&self) -> usize {
        *self as usize
    }

    fn index(&self) -> usize {
        *self as usize
    }
}

#[test]
fn set_pool_cannot_exceed_min() {
    let mut mana_pool = ManaPool::new(Mana(0), Mana(10), Mana(0));
    mana_pool.set_current(Mana(-3));
    assert_eq!(mana_pool.current(), ManaPool::min());
}

#[test]
fn set_pool_cannot_exceed_max() {
    let max_mana = Mana(10);
    let mut mana_pool = ManaPool::new(max_mana, max_mana, Mana(0));
    mana_pool.set_current(Mana(100));
    assert_eq!(mana_pool.current(), max_mana);
}

#[test]
fn reducing_max_decreases_current() {
    let mut mana_pool = ManaPool::new(Mana(10), Mana(10), Mana(0));
    assert_eq!(mana_pool.current(), Mana(10));
    mana_pool.set_max(Mana(5)).unwrap();
    assert_eq!(mana_pool.current(), Mana(5));
}

#[test]
fn setting_max_below_min_fails() {
    let mut mana_pool = ManaPool::new(Mana(10), Mana(10), Mana(0));
    let result = mana_pool.set_max(Mana(-7));
    assert_eq!(mana_pool.max(), Mana(10));
    assert_eq!(result, Err(MaxPoolLessThanMin))
}

#[test]
fn expending_depletes_pool() {
    let mut mana_pool = ManaPool::new(Mana(11), Mana(11), Mana(0));
    mana_pool.expend(Mana(5)).unwrap();
    assert_eq!(mana_pool.current(), Mana(6));
    mana_pool.expend(Mana(5)).unwrap();
    assert_eq!(mana_pool.current(), Mana(1));
    assert_eq!(
        mana_pool.expend(Mana(5)),
        Err(CannotUseAbility::PoolInsufficient)
    );
}

#[test]
fn pool_can_regenerate() {
    let mut mana_pool = ManaPool::new(Mana(0), Mana(10), Mana(13));
    mana_pool.regenerate(Duration::from_millis(100));
    let expected = Mana(1);

    assert_eq!(mana_pool.current(), expected);
}

#[test]
fn regeneration_is_rate_times_seconds_rounded_towards_zero() {
    let mut pool = ManaPool::new(Mana(0), Mana(1_000_000), Mana(13));
    pool.regenerate(Duration::from_secs(1));
    assert_eq!(pool.current(), Mana(13));
    pool.regenerate(Duration::from_millis(2500));
    assert_eq!(pool.current(), Mana(13 + 32));
    pool.regenerate(Duration::from_nanos(76_923_076));
    assert_eq!(pool.current(), Mana(45));
    pool.regenerate(Duration::from_nanos(76_923_077));
    assert_eq!(pool.current(), Mana(46));
    pool.regenerate_nanos(0);
    assert_eq!(pool.current(), Mana(46));
    pool.regenerate(Duration::MAX);
    assert_eq!(pool.current(), Mana(1_000_000));
    pool.regenerate_nanos(u128::MAX);
    assert_eq!(pool.current(), Mana(1_000_000));
    assert_eq!(pool.max(), Mana(1_000_000));
    assert_eq!(pool.regen_per_second(), Mana(13));
}

#[test]
fn negative_regeneration_decays_down_to_min() {
    let mut rage = ManaPool::new(Mana(100), Mana(100), Mana(-30));
    rage.regenerate(Duration::from_secs(1));
    assert_eq!(rage.current(), Mana(70));
    rage.regenerate(Duration::from_millis(1050));
    assert_eq!(rage.current(), Mana(39));
    rage.regenerate(Duration::from_secs(2));
    assert_eq!(rage.current(), Mana(0));
    rage.regenerate(Duration::MAX);
    assert_eq!(rage.current(), Mana(0));

    let mut steep = ManaPool::new(Mana(i64::MAX), Mana(i64::MAX), Mana(i64::MIN));
    steep.regenerate(Duration::from_nanos(1));
    assert_eq!(steep.current(), Mana(i64::MAX - 9_223_372_036));
    steep.regenerate_nanos(u128::MAX);
    assert_eq!(steep.current(), Mana(0));
}

#[test]
fn pool_stays_within_bounds() {
    let mut pool = LifePool::new(Life(40), Life(50), Life(0));
    pool.replenish(Life(5));
    assert_eq!(pool.current(), Life(45));
    pool.replenish(Life(500));
    assert_eq!(pool.current(), Life(50));
    assert!(pool.is_full());
    pool.replenish(Life(i64::MAX));
    assert_eq!(pool.current(), Life(50));
    pool.replenish(Life(-20));
    assert_eq!(pool.current(), Life(30));
    pool.replenish(Life(i64::MIN));
    assert_eq!(pool.current(), Life(0));
    assert!(pool.is_empty());
    assert!(!pool.is_full());

    pool.set_current(Life(20));
    assert_eq!(pool.expend(Life(21)), Err(CannotUseAbility::PoolInsufficient));
    assert_eq!(pool.current(), Life(20));
    assert_eq!(pool.available(Life(20)), Ok(()));
    assert_eq!(pool.available(Life(21)), Err(CannotUseAbility::PoolInsufficient));
    assert_eq!(pool.expend(Life(20)), Ok(()));
    assert_eq!(pool.current(), Life(0));
    assert_eq!(pool.expend(Life(-70)), Ok(()));
    assert_eq!(pool.current(), Life(50));
    assert_eq!(pool.max(), Life(50));
}

#[test]
fn set_max_keeps_the_pool_within_bounds() {
    let mut pool = LifePool::new(Life(30), Life(50), Life(2));
    assert_eq!(pool.set_max(Life(80)), Ok(()));
    assert_eq!(pool.max(), Life(80));
    assert_eq!(pool.current(), Life(30));
    assert_eq!(pool.set_max(Life(10)), Ok(()));
    assert_eq!(pool.current(), Life(10));
    let before = pool;
    assert_eq!(pool.set_max(Life(-1)), Err(MaxPoolLessThanMin));
    assert_eq!(pool, before);
    assert_eq!(pool.set_max(Life(0)), Ok(()));
    assert_eq!(pool.current(), Life(0));
    assert_eq!(pool.max(), Life(0));
    assert_eq!(pool.regen_per_second(), Life(2));
    assert_eq!(
        MaxPoolLessThanMin.message(),
        "The maximum quantity that can be stored in a pool must be greater than the minimum value."
    );
}

#[test]
fn regen_rate_can_be_changed() {
    let mut pool = LifePool::new(Life(1), Life(50), Life(2));
    pool.set_regen_per_second(Life(7));
    assert_eq!(pool.regen_per_second(), Life(7));
    assert_eq!(pool.regen_per_second, Life(7));
    assert_eq!(pool.current(), Life(1));
    assert_eq!(pool.max(), Life(50));
    let mut maybe_pool = Some(pool);
    regenerate_resource_pool(maybe_pool.as_mut(), Duration::from_secs(2));
    assert_eq!(maybe_pool.unwrap().current(), Life(15));
    regenerate_resource_pool::<LifePool>(None, Duration::from_secs(2));
    assert_eq!(Life::default(), Life(0));
    assert_eq!(Mana::default(), Mana(0));
}

#[test]
fn costs_are_paid_from_the_pool() {
    let mut costs: AbilityCosts<Spell, ManaPool> = AbilityCosts::new(vec![
        (Spell::Spark, Mana(3)),
        (Spell::Fireball, Mana(10)),
        (Spell::Spark, Mana(4)),
    ]);
    let mut pool = ManaPool::new(Mana(12), Mana(20), Mana(0));
    assert_eq!(costs.get(Spell::Spark), Some(&Mana(4)));
    assert_eq!(costs.get(Spell::Cantrip), None);
    assert!(costs.available(Spell::Fireball, &pool));
    assert!(costs.available(Spell::Cantrip, &pool));

    assert_eq!(costs.pay_cost(Spell::Spark, &mut pool), Ok(()));
    assert_eq!(pool.current(), Mana(8));
    assert!(!costs.available(Spell::Fireball, &pool));
    assert_eq!(
        costs.pay_cost(Spell::Fireball, &mut pool),
        Err(CannotUseAbility::PoolInsufficient)
    );
    assert_eq!(pool.current(), Mana(8));
    assert_eq!(costs.pay_cost(Spell::Cantrip, &mut pool), Ok(()));
    assert_eq!(pool.current(), Mana(8));

    *costs.get_mut(Spell::Fireball).unwrap() = Mana(8);
    assert!(costs.get_mut(Spell::Cantrip).is_none());
    let copy = costs.set(Spell::Cantrip, Mana(1)).build();
    assert_eq!(copy.get(Spell::Fireball), Some(&Mana(8)));
    assert_eq!(copy.get(Spell::Cantrip), Some(&Mana(1)));
    assert_eq!(costs.pay_cost(Spell::Fireball, &mut pool), Ok(()));
    assert_eq!(pool.current(), Mana(0));

    let free: AbilityCosts<Spell, ManaPool> = AbilityCosts::default();
    assert_eq!(free.get(Spell::Spark), None);
}

#[test]
fn costs_hand_out_every_entry_once() {
    let mut costs: AbilityCosts<Spell, ManaPool> = AbilityCosts::new(vec![
        (Spell::Spark, Mana(3)),
        (Spell::Fireball, Mana(10)),
    ]);
    costs.set_at(5, Mana(7));
    let mut indices = costs.indices();
    let in_order: Vec<Mana> = indices
        .iter()
        .map(|index| *costs.get_at(*index).unwrap())
        .collect();
    let handed_out: Vec<Mana> = costs.iter().iter().map(|cost| **cost).collect();
    assert_eq!(handed_out, in_order);
    indices.sort();
    assert_eq!(indices, vec![0, 1, 5]);
    *costs.get_mut_at(5).unwrap() = Mana(8);
    assert_eq!(costs.get_at(5), Some(&Mana(8)));
    assert!(costs.get_mut_at(6).is_none());
}

#[test]
fn quantities_add_up_as_far_as_they_can() {
    assert_eq!(Life(3) + Life(4), Life(7));
    assert_eq!(Life(3) - Life(4), Life(-1));
    assert_eq!(Life(i64::MAX) + Life(1), Life(i64::MAX));
    assert_eq!(Life(i64::MIN) - Life(1), Life(i64::MIN));
    assert_eq!(Life(i64::MIN) + Life(i64::MAX), Life(-1));
    let mut mana = Mana(10);
    mana += Mana(5);
    assert_eq!(mana, Mana(15));
    mana -= Mana(20);
    assert_eq!(mana, Mana(-5));
    mana -= Mana(i64::MAX);
    mana -= Mana(i64::MAX);
    assert_eq!(mana, Mana(i64::MIN));
    assert_eq!(Mana(1) + Mana(2) - Mana(4), Mana(-1));
}

#[test]
fn pools_take_healing_and_damage() {
    let pool = LifePool::new(Life(30), Life(50), Life(1));
    assert_eq!((pool + Life(5)).current(), Life(35));
    assert_eq!((pool + Life(500)).current(), Life(50));
    assert_eq!((pool - Life(5)).current(), Life(25));
    assert_eq!((pool - Life(500)).current(), Life(0));
    assert_eq!((pool - Life(-500)).current(), Life(50));
    assert_eq!((pool + Life(5)).max(), Life(50));
    assert_eq!((pool - Life(5)).regen_per_second(), Life(1));

    let mut pool = ManaPool::new(Mana(30), Mana(50), Mana(1));
    pool += Mana(15);
    assert_eq!(pool.current(), Mana(45));
    pool += Mana(15);
    assert_eq!(pool.current(), Mana(50));
    pool -= Mana(20);
    assert_eq!(pool.current(), Mana(30));
    pool -= Mana(i64::MAX);
    assert_eq!(pool.current(), Mana(0));
    pool -= Mana(i64::MIN);
    assert_eq!(pool.current(), Mana(50));
    assert_eq!(pool.max(), Mana(50));
}
