use vstd::prelude::*;

use super::Party;

verus! {

/// shows how the total points were calculated for a push, including bonuses
pub struct Breakdown;

impl Party for Breakdown {
    fn id(&self) -> (r: &'static str)
        ensures
            r@ == "breakdown"@,
    {
        "breakdown"
    }

    fn name(&self) -> (r: &'static str)
        ensures
            r@ == "Points Breakdown"@,
    {
        "Points Breakdown"
    }

    fn description(&self) -> (r: &'static str)
        ensures
            r@ == "Shows which bonuses applied to your push and how your total was calculated."@,
    {
        "Shows which bonuses applied to your push and how your total was calculated."
    }

    fn cost(&self) -> (r: u64)
        ensures
            r == 50,
    {
        50
    }

    fn supports_color(&self) -> (r: bool)
        ensures
            !r,
    {
        false
    }
}

} // verus!
