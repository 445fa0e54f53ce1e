//! Convenient premade resource [`Pool`](crate::pool::Pool) types to get you started.
//!
//! Feel free to copy them into your own source to make new variants.

pub mod life;
pub mod mana;
