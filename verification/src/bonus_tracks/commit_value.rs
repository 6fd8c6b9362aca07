use vstd::prelude::*;

use super::{BonusTrack, PushContext, Reward, Tier};

verus! {

/// base points earned per commit
pub struct CommitValue;

impl BonusTrack for CommitValue {
    open spec fn spec_tiers(&self) -> Seq<Tier> {
        seq![
            Tier { cost: 0, reward: Reward::FlatPoints(1) },
            Tier { cost: 25, reward: Reward::FlatPoints(2) },
            Tier { cost: 100, reward: Reward::FlatPoints(3) },
            Tier { cost: 400, reward: Reward::FlatPoints(4) },
            Tier { cost: 1600, reward: Reward::FlatPoints(5) },
        ]
    }

    open spec fn applies_requires(&self, ctx: PushContext) -> bool {
        true
    }

    open spec fn spec_applies(&self, ctx: PushContext) -> u32 {
        1
    }

    fn id(&self) -> (r: &'static str)
        ensures
            r@ == "commit_value"@,
    {
        "commit_value"
    }

    fn name(&self) -> (r: &'static str)
        ensures
            r@ == "Commit Value"@,
    {
        "Commit Value"
    }

    fn description(&self) -> (r: &'static str)
        ensures
            r@ == "How many party points you earn per commit."@,
    {
        "How many party points you earn per commit."
    }

    fn tiers(&self) -> (r: Vec<Tier>) {
        vec![
            Tier { cost: 0, reward: Reward::FlatPoints(1) },
            Tier { cost: 25, reward: Reward::FlatPoints(2) },
            Tier { cost: 100, reward: Reward::FlatPoints(3) },
            Tier { cost: 400, reward: Reward::FlatPoints(4) },
            Tier { cost: 1600, reward: Reward::FlatPoints(5) },
        ]
    }

    fn applies(&self, ctx: &PushContext) -> (r: u32) {
        1 // always applies
    }
}

} // verus!
