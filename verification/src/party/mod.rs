//! Parties: what is shown after a push.

use vstd::prelude::*;

pub mod breakdown;
pub mod display;
pub mod style;

pub use breakdown::Breakdown;

verus! {

/// what the library knows of a party: how it is listed and what it costs
pub trait Party {
    /// unique identifier for state storage
    fn id(&self) -> &'static str;

    /// display name for the UI
    fn name(&self) -> &'static str;

    /// description for the UI
    fn description(&self) -> &'static str;

    /// unlock cost
    fn cost(&self) -> u64;

    /// whether or not the color of the output of this party is configurable
    fn supports_color(&self) -> bool;
}

} // verus!
