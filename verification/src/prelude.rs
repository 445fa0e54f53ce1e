//! Everything you need to get started

pub use crate::ability_state::{AbilityStateItem, AbilityStateReadOnlyItem, ActionState, NullPool};
pub use crate::charges::{ChargeState, Charges};
pub use crate::cooldown::{Cooldown, CooldownState};
pub use crate::pool::{AbilityCosts, Pool, PoolBundle};
pub use crate::CannotUseAbility;
pub use crate::{AbilitiesBundle, Abilitylike};
