//! Turns pointer, wheel and button activity into a decaying "power" level
//! and derives from it, once per tick, the speed at which a fleet of
//! vibrating devices is driven.
//!
//! All quantities are held in fixed point: `power::POWER_ONE` units make up
//! a power of exactly one. Every function is stated over that integer model
//! and proved against it.

pub mod botton;
pub mod dispatch;
pub mod held;
pub mod input;
pub mod motion;
pub mod power;
pub mod report;
pub mod scan;
pub mod session;
