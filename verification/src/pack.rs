//! Packs: bought with points, opened for items of random rarity.

use vstd::prelude::*;

use crate::game::snake::game::random_index;

verus! {

/// how uncommon a pack item is
#[derive(Debug, Clone, Copy, PartialEq, Eq, Structural)]
pub enum Rarity {
    Common,
    Rare,
    Epic,
    Legendary,
}

impl Rarity {
    /// position in the order Common < Rare < Epic < Legendary
    pub open spec fn rank(self) -> int {
        match self {
            Rarity::Common => 0,
            Rarity::Rare => 1,
            Rarity::Epic => 2,
            Rarity::Legendary => 3,
        }
    }

    /// the next rarity up, if there is one
    pub open spec fn spec_upgrade(self) -> Option<Rarity> {
        match self {
            Rarity::Common => Some(Rarity::Rare),
            Rarity::Rare => Some(Rarity::Epic),
            Rarity::Epic => Some(Rarity::Legendary),
            Rarity::Legendary => None,
        }
    }

    pub fn upgrade(&self) -> (r: Option<Self>)
        ensures
            r == self.spec_upgrade(),
    {
        match self {
            Self::Common => Some(Self::Rare),
            Self::Rare => Some(Self::Epic),
            Self::Epic => Some(Self::Legendary),
            Self::Legendary => None,
        }
    }
}

/// decides, one step at a time, whether an item's rarity goes up
pub trait RarityUpgrader {
    /// every rarity asked about so far, with the answer given, in order;
    /// an upgrader that keeps no record of its answers cannot meet the
    /// contract of `should_upgrade`, so every verified upgrader keeps one
    closed spec fn answers_given(&self) -> Seq<(Rarity, bool)> {
        Seq::empty()
    }

    fn should_upgrade(&mut self, rarity: &Rarity) -> (r: bool)
        ensures
            final(self).answers_given() == old(self).answers_given().push((*rarity, r)),
    ;
}

/// the odds against each upgrade: one in ten from common, one in five from
/// rare and from epic. For the basic pack template (CCCCR) this gives about
/// 72% common, 22% rare, 5% epic and 1% legendary items: one in four packs
/// holds an epic or a legendary item.
pub const COMMON_TO_RARE_ODDS: usize = 10;
pub const RARE_TO_EPIC_ODDS: usize = 5;
pub const EPIC_TO_LEGENDARY_ODDS: usize = 5;

/// how many equally likely draws the upgrade of `rarity` is decided among;
/// legendary is drawn for too, though it never goes up
pub open spec fn spec_odds(rarity: Rarity) -> usize {
    match rarity {
        Rarity::Common => COMMON_TO_RARE_ODDS,
        Rarity::Rare => RARE_TO_EPIC_ODDS,
        Rarity::Epic => EPIC_TO_LEGENDARY_ODDS,
        Rarity::Legendary => 1,
    }
}

pub fn odds(rarity: Rarity) -> (r: usize)
    ensures
        r == spec_odds(rarity),
        r > 0,
{
    match rarity {
        Rarity::Common => COMMON_TO_RARE_ODDS,
        Rarity::Rare => RARE_TO_EPIC_ODDS,
        Rarity::Epic => EPIC_TO_LEGENDARY_ODDS,
        Rarity::Legendary => 1,
    }
}

/// whether an item of `rarity` goes up on `draw`: only the draw of zero
/// wins, and legendary never goes up
pub open spec fn spec_upgrade_on_draw(rarity: Rarity, draw: usize) -> bool {
    rarity != Rarity::Legendary && draw == 0
}

/// decides an upgrade from a draw among `spec_odds(rarity)` outcomes
pub fn upgrade_on_draw(rarity: Rarity, draw: usize) -> (r: bool)
    ensures
        r == spec_upgrade_on_draw(rarity, draw),
{
    match rarity {
        Rarity::Legendary => false,
        _ => draw == 0,
    }
}

/// upgrades by chance, with the odds above; legendary never goes up
pub struct RngUpgrader {
    log: Ghost<Seq<(Rarity, bool)>>,
}

impl RngUpgrader {
    pub fn new() -> (u: Self)
        ensures
            u.answers_given() == Seq::<(Rarity, bool)>::empty(),
    {
        RngUpgrader { log: Ghost(Seq::empty()) }
    }
}

impl RarityUpgrader for RngUpgrader {
    closed spec fn answers_given(&self) -> Seq<(Rarity, bool)> {
        self.log@
    }

    /// draws uniformly among `spec_odds(rarity)` outcomes and decides with
    /// `upgrade_on_draw`; which outcome comes up is left to chance
    fn should_upgrade(&mut self, rarity: &Rarity) -> (r: bool)
        ensures
            exists|draw: usize| draw < spec_odds(*rarity) && r == spec_upgrade_on_draw(*rarity, draw),
    {
        let draw = random_index(odds(*rarity));
        let r = upgrade_on_draw(*rarity, draw);
        proof {
            self.log@ = self.log@.push((*rarity, r));
        }
        r
    }
}

/// the base rarity of items in a pack
#[derive(Debug, Copy, Clone)]
pub struct PackTemplate(pub &'static [Rarity]);

/// `r` raised once per leading `true` answer, stopping at the first `false`
/// or at legendary
pub open spec fn raised(r: Rarity, answers: Seq<bool>) -> Rarity
    decreases answers.len(),
{
    if answers.len() == 0 || !answers[0] {
        r
    } else {
        match r.spec_upgrade() {
            Some(next) => raised(next, answers.drop_first()),
            None => r,
        }
    }
}

/// the questions put to the upgrader while `r` is raised with these
/// answers, each with its answer: the rarity so far, until a no or a yes at
/// legendary
pub open spec fn dialogue(r: Rarity, answers: Seq<bool>) -> Seq<(Rarity, bool)>
    decreases answers.len(),
{
    if answers.len() == 0 {
        Seq::empty()
    } else if !answers[0] {
        seq![(r, false)]
    } else {
        match r.spec_upgrade() {
            Some(next) => seq![(r, true)] + dialogue(next, answers.drop_first()),
            None => seq![(r, true)],
        }
    }
}

/// the questions and answers about the first `n` items of a template, item
/// after item
pub open spec fn dialogues(template: Seq<Rarity>, answers: Seq<Seq<bool>>, n: nat) -> Seq<(Rarity, bool)>
    decreases n,
{
    if n == 0 {
        Seq::empty()
    } else {
        dialogues(template, answers, (n - 1) as nat) + dialogue(template[n - 1], answers[n - 1])
    }
}

proof fn lemma_dialogues_prefix(template: Seq<Rarity>, a: Seq<Seq<bool>>, b: Seq<Seq<bool>>, n: nat)
    requires
        n <= a.len(),
        n <= b.len(),
        forall|j: int| 0 <= j < n ==> a[j] == b[j],
    ensures
        dialogues(template, a, n) == dialogues(template, b, n),
    decreases n,
{
    if n > 0 {
        lemma_dialogues_prefix(template, a, b, (n - 1) as nat);
    }
}

/// the answers as sequences
pub open spec fn answer_views(answers: Seq<Vec<bool>>) -> Seq<Seq<bool>> {
    answers.map_values(|v: Vec<bool>| v@)
}

/// the answers to one item's questions, as the upgrade asks them: one
/// question after each yes, until a no or a yes at legendary
pub open spec fn answers_complete(r: Rarity, answers: Seq<bool>) -> bool
    decreases answers.len(),
{
    answers.len() > 0 && if !answers[0] {
        answers.len() == 1
    } else {
        match r.spec_upgrade() {
            Some(next) => answers_complete(next, answers.drop_first()),
            None => answers.len() == 1,
        }
    }
}

/// `upgraded` is `template` raised with complete answers, one list per item
pub open spec fn upgraded_by(template: Seq<Rarity>, answers: Seq<Seq<bool>>, upgraded: Seq<Rarity>) -> bool {
    &&& answers.len() == template.len()
    &&& upgraded.len() == template.len()
    &&& forall|i: int|
        0 <= i < template.len() ==> answers_complete(template[i], #[trigger] answers[i]) && upgraded[i] == raised(
            template[i],
            answers[i],
        )
}

impl PackTemplate {
    /// The template raised with given answers: item `i` goes up one rarity
    /// per `true` in `answers[i]`, up to the first `false` or legendary.
    pub fn upgrade_with(&self, answers: &Vec<Vec<bool>>) -> (r: Vec<Rarity>)
        requires
            answers@.len() == self.0@.len(),
        ensures
            r@.len() == self.0@.len(),
            forall|i: int| 0 <= i < r@.len() ==> r@[i] == raised(self.0@[i], #[trigger] answers@[i]@),
    {
        let mut out: Vec<Rarity> = Vec::new();
        let mut i: usize = 0;
        while i < self.0.len()
            invariant
                0 <= i <= self.0@.len(),
                answers@.len() == self.0@.len(),
                out@.len() == i,
                forall|j: int| 0 <= j < i ==> out@[j] == raised(self.0@[j], #[trigger] answers@[j]@),
            decreases self.0@.len() - i,
        {
            let a = &answers[i];
            let mut rarity = self.0[i];
            let mut k: usize = 0;
            let mut done = false;
            assert(a@.subrange(0, a@.len() as int) =~= a@);
            while k < a.len()
                invariant
                    0 <= i < self.0@.len(),
                    0 <= k <= a@.len(),
                    a == answers@[i as int],
                    done ==> rarity == raised(self.0@[i as int], a@),
                    !done ==> raised(rarity, a@.subrange(k as int, a@.len() as int)) == raised(
                        self.0@[i as int],
                        a@,
                    ),
                decreases a@.len() - k,
            {
                let ghost rest = a@.subrange(k as int, a@.len() as int);
                if done {
                    k = a.len();
                } else if !a[k] {
                    done = true;
                    k = a.len();
                } else {
                    match rarity.upgrade() {
                        Some(next) => {
                            assert(rest.drop_first() =~= a@.subrange(k + 1, a@.len() as int));
                            rarity = next;
                            k = k + 1;
                        },
                        None => {
                            done = true;
                            k = a.len();
                        },
                    }
                }
            }
            proof {
                if !done {
                    assert(a@.subrange(k as int, a@.len() as int).len() == 0);
                }
            }
            out.push(rarity);
            i = i + 1;
        }
        out
    }

    /// Asks the upgrader about each item in turn: about its rarity, and
    /// after each yes about the raised rarity, until a no or a yes at
    /// legendary. Returns the answers, item by item.
    pub fn ask<U: RarityUpgrader>(&self, upgrader: &mut U) -> (answers: Vec<Vec<bool>>)
        ensures
            answers@.len() == self.0@.len(),
            forall|i: int| 0 <= i < answers@.len() ==> answers_complete(self.0@[i], #[trigger] answers@[i]@),
            final(upgrader).answers_given() == old(upgrader).answers_given() + dialogues(
                self.0@,
                answer_views(answers@),
                self.0@.len(),
            ),
    {
        let mut answers: Vec<Vec<bool>> = Vec::new();
        let ghost said_all: Seq<Seq<bool>> = Seq::empty();
        let mut i: usize = 0;
        while i < self.0.len()
            invariant
                0 <= i <= self.0@.len(),
                answers@.len() == i,
                said_all.len() == i,
                forall|j: int| 0 <= j < i ==> said_all[j] == #[trigger] answers@[j]@,
                forall|j: int| 0 <= j < i ==> answers_complete(self.0@[j], #[trigger] answers@[j]@),
                upgrader.answers_given() == old(upgrader).answers_given() + dialogues(self.0@, said_all, i as nat),
            decreases self.0@.len() - i,
        {
            let mut rarity = self.0[i];
            let mut said: Vec<bool> = Vec::new();
            let ghost base = upgrader.answers_given();
            let ghost item_log: Seq<(Rarity, bool)> = Seq::empty();
            assert forall|tail: Seq<bool>| answers_complete(rarity, tail) implies answers_complete(
                self.0@[i as int],
                #[trigger] (said@ + tail),
            ) by {
                assert(said@ + tail =~= tail);
            }
            assert forall|tail: Seq<bool>| #[trigger] dialogue(self.0@[i as int], said@ + tail) == item_log + dialogue(rarity, tail) by {
                assert(said@ + tail =~= tail);
                assert(item_log + dialogue(rarity, tail) =~= dialogue(rarity, tail));
            }
            loop
                invariant_except_break
                    forall|tail: Seq<bool>| answers_complete(rarity, tail) ==> answers_complete(
                        self.0@[i as int],
                        #[trigger] (said@ + tail),
                    ),
                    forall|tail: Seq<bool>| #[trigger] dialogue(self.0@[i as int], said@ + tail) == item_log + dialogue(rarity, tail),
                invariant
                    0 <= i < self.0@.len(),
                    0 <= rarity.rank() <= 3,
                    upgrader.answers_given() == base + item_log,
                ensures
                    answers_complete(self.0@[i as int], said@),
                    dialogue(self.0@[i as int], said@) == item_log,
                decreases 3 - rarity.rank(),
            {
                let yes = upgrader.should_upgrade(&rarity);
                let ghost before = said@;
                let ghost log_before = item_log;
                proof {
                    item_log = item_log.push((rarity, yes));
                    assert(base + item_log =~= (base + log_before).push((rarity, yes)));
                }
                said.push(yes);
                if !yes {
                    assert(answers_complete(rarity, seq![false]));
                    assert(said@ =~= before + seq![false]);
                    assert(answers_complete(self.0@[i as int], before + seq![false]));
                    assert(dialogue(self.0@[i as int], before + seq![false]) == log_before + dialogue(rarity, seq![false]));
                    assert(log_before + dialogue(rarity, seq![false]) =~= item_log);
                    break;
                }
                match rarity.upgrade() {
                    Some(next) => {
                        assert forall|tail: Seq<bool>| answers_complete(next, tail) implies answers_complete(
                            self.0@[i as int],
                            #[trigger] (said@ + tail),
                        ) by {
                            assert((seq![true] + tail).drop_first() =~= tail);
                            assert(answers_complete(rarity, seq![true] + tail));
                            assert(before + (seq![true] + tail) =~= said@ + tail);
                        }
                        assert forall|tail: Seq<bool>| #[trigger] dialogue(self.0@[i as int], said@ + tail) == item_log + dialogue(next, tail) by {
                            assert((seq![true] + tail).drop_first() =~= tail);
                            assert(before + (seq![true] + tail) =~= said@ + tail);
                            assert(dialogue(self.0@[i as int], before + (seq![true] + tail)) == log_before + dialogue(rarity, seq![true] + tail));
                            assert(dialogue(rarity, seq![true] + tail) == seq![(rarity, true)] + dialogue(next, tail));
                            assert(log_before + (seq![(rarity, true)] + dialogue(next, tail)) =~= item_log + dialogue(next, tail));
                        }
                        rarity = next;
                    },
                    None => {
                        assert(answers_complete(rarity, seq![true]));
                        assert(said@ =~= before + seq![true]);
                        assert(answers_complete(self.0@[i as int], before + seq![true]));
                        assert(dialogue(self.0@[i as int], before + seq![true]) == log_before + dialogue(rarity, seq![true]));
                        assert(log_before + dialogue(rarity, seq![true]) =~= item_log);
                        break;
                    },
                }
            }
            let ghost prev_all = said_all;
            proof {
                said_all = said_all.push(said@);
                lemma_dialogues_prefix(self.0@, prev_all, said_all, i as nat);
                assert(dialogues(self.0@, said_all, (i + 1) as nat) == dialogues(self.0@, said_all, i as nat) + dialogue(self.0@[i as int], said_all[i as int]));
                assert(upgrader.answers_given() =~= old(upgrader).answers_given() + dialogues(self.0@, said_all, (i + 1) as nat));
            }
            answers.push(said);
            i = i + 1;
        }
        proof {
            assert(said_all =~= answer_views(answers@));
        }
        answers
    }

    /// Iteratively upgrades the elements of the template: each item is
    /// raised as `upgrade_with` raises it with the answers `ask` gets, and
    /// the upgrader is asked exactly those questions.
    pub fn upgrade<U: RarityUpgrader>(&self, upgrader: &mut U) -> (r: Vec<Rarity>)
        ensures
            r@.len() == self.0@.len(),
            exists|answers: Seq<Seq<bool>>|
                #[trigger] upgraded_by(self.0@, answers, r@) && final(upgrader).answers_given()
                    == old(upgrader).answers_given() + dialogues(self.0@, answers, self.0@.len()),
    {
        let answers = self.ask(upgrader);
        let r = self.upgrade_with(&answers);
        let ghost a = answer_views(answers@);
        assert(forall|i: int| 0 <= i < r@.len() ==> a[i] == answers@[i]@);
        assert(upgraded_by(self.0@, a, r@));
        r
    }
}

/// the kinds of pack on sale
#[derive(Debug, Clone, Copy, PartialEq, Eq, Structural)]
pub enum Pack {
    Basic,
    Premium,
}

impl Pack {
    pub open spec fn spec_cost(self) -> u64 {
        match self {
            Pack::Basic => 1_000,
            Pack::Premium => 10_000,
        }
    }

    pub fn cost(&self) -> (r: u64)
        ensures
            r == self.spec_cost(),
    {
        match self {
            Pack::Basic => 1_000,
            Pack::Premium => 10_000,
        }
    }

    pub fn name(&self) -> (r: &'static str)
        ensures
            r@ == (match self {
                Pack::Basic => "Basic Pack"@,
                Pack::Premium => "Premium Pack"@,
            }),
    {
        match self {
            Pack::Basic => "Basic Pack",
            Pack::Premium => "Premium Pack",
        }
    }

    pub fn description(&self) -> (r: &'static str)
        ensures
            r@ == (match self {
                Pack::Basic => "A pack with mostly common items and at least one of higher-rarity."@,
                Pack::Premium => "A pack with only three items but of higher-rarity."@,
            }),
    {
        match self {
            Pack::Basic => "A pack with mostly common items and at least one of higher-rarity.",
            Pack::Premium => "A pack with only three items but of higher-rarity.",
        }
    }

    /// the rarities of the items in this pack before any upgrade
    pub open spec fn spec_template(self) -> Seq<Rarity> {
        match self {
            Pack::Basic => seq![Rarity::Common, Rarity::Common, Rarity::Common, Rarity::Common, Rarity::Rare],
            Pack::Premium => seq![Rarity::Common, Rarity::Rare, Rarity::Epic],
        }
    }

    pub fn template(&self) -> (r: PackTemplate)
        ensures
            r.0@ == self.spec_template(),
    {
        match self {
            Pack::Basic => PackTemplate(&[Rarity::Common, Rarity::Common, Rarity::Common, Rarity::Common, Rarity::Rare]),
            Pack::Premium => PackTemplate(&[Rarity::Common, Rarity::Rare, Rarity::Epic]),
        }
    }
}

/// The basic pack is mostly common items with at least one of higher
/// rarity; the premium pack has only three items, reaching up to epic.
pub proof fn law_pack_templates()
    ensures
        Pack::Basic.spec_template().len() == 5,
        Pack::Basic.spec_template().filter(|r: Rarity| r == Rarity::Common).len() == 4,
        exists|i: int| 0 <= i < 5 && #[trigger] Pack::Basic.spec_template()[i].rank() > 0,
        Pack::Premium.spec_template().len() == 3,
        Pack::Premium.spec_template()[2] == Rarity::Epic,
        Pack::Basic.spec_cost() < Pack::Premium.spec_cost(),
{
    let t = Pack::Basic.spec_template();
    assert(t[4].rank() > 0);
    reveal_with_fuel(Seq::filter, 6);
    assert(t.filter(|r: Rarity| r == Rarity::Common) =~= seq![Rarity::Common, Rarity::Common, Rarity::Common, Rarity::Common]);
}

/// Upgrading a template keeps its size and never lowers an item's rarity;
/// a legendary item stays legendary.
pub proof fn law_upgrade_never_downgrades(template: Seq<Rarity>, upgraded: Seq<Rarity>)
    requires
        upgraded.len() == template.len(),
        forall|i: int| 0 <= i < upgraded.len() ==> upgraded[i].rank() >= (#[trigger] template[i]).rank(),
    ensures
        forall|i: int| 0 <= i < template.len() && template[i] == Rarity::Legendary ==> #[trigger] upgraded[i] == Rarity::Legendary,
{
    assert forall|i: int| 0 <= i < template.len() && template[i] == Rarity::Legendary implies #[trigger] upgraded[i] == Rarity::Legendary by {
        assert(upgraded[i].rank() >= template[i].rank());
    }
}

/// An upgrade step moves exactly one rarity up, and only legendary has no
/// next step.
pub proof fn law_upgrade_steps_up_by_one(r: Rarity)
    ensures
        r.spec_upgrade() is None <==> r == Rarity::Legendary,
        r.spec_upgrade() matches Some(n) ==> n.rank() == r.rank() + 1,
{
}

/// the points in a bundle of each rarity
pub const COMMON_POINTS: u64 = 25;
pub const RARE_POINTS: u64 = 100;
pub const EPIC_POINTS: u64 = 400;
pub const LEGENDARY_POINTS: u64 = 1600;

/// the points a bundle of `rarity` holds: each rarity is worth four of the
/// one below
pub open spec fn bundle_points(rarity: Rarity) -> u64 {
    match rarity {
        Rarity::Common => COMMON_POINTS,
        Rarity::Rare => RARE_POINTS,
        Rarity::Epic => EPIC_POINTS,
        Rarity::Legendary => LEGENDARY_POINTS,
    }
}

/// what can be in a pack
#[derive(Debug, Clone, Copy, PartialEq, Eq)]
pub enum PackItem {
    PaletteUnlock { party_id: &'static str, palette_id: &'static str, rarity: Rarity },
    PointBundle { points: u64, rarity: Rarity },
}

impl PackItem {
    pub open spec fn spec_rarity(self) -> Rarity {
        match self {
            PackItem::PaletteUnlock { rarity, .. } => rarity,
            PackItem::PointBundle { rarity, .. } => rarity,
        }
    }

    pub fn rarity(&self) -> (r: Rarity)
        ensures
            r == self.spec_rarity(),
    {
        match self {
            PackItem::PaletteUnlock { rarity, .. } => *rarity,
            PackItem::PointBundle { rarity, .. } => *rarity,
        }
    }

    /// the point bundle of `rarity`, one of the items every pack can hold
    pub fn point_bundle(rarity: Rarity) -> (r: PackItem)
        ensures
            r == (PackItem::PointBundle { points: bundle_points(rarity), rarity }),
    {
        let points = match rarity {
            Rarity::Common => COMMON_POINTS,
            Rarity::Rare => RARE_POINTS,
            Rarity::Epic => EPIC_POINTS,
            Rarity::Legendary => LEGENDARY_POINTS,
        };
        PackItem::PointBundle { points, rarity }
    }

    /// the party points an item adds once applied: a bundle's points, and
    /// none for a palette
    pub open spec fn spec_points(self) -> u64 {
        match self {
            PackItem::PointBundle { points, .. } => points,
            PackItem::PaletteUnlock { .. } => 0,
        }
    }

    /// applies the item to the party points: a bundle adds its points
    /// directly (they count toward nothing else); a palette leaves them
    pub fn apply_points(&self, party_points: &mut u64)
        requires
            *old(party_points) + self.spec_points() <= u64::MAX,
        ensures
            *final(party_points) == *old(party_points) + self.spec_points(),
    {
        match self {
            PackItem::PointBundle { points, .. } => *party_points = *party_points + *points,
            PackItem::PaletteUnlock { .. } => {},
        }
    }
}

/// Each rarity's bundle holds four times the points of the one below, so
/// upgrading an item's rarity always makes its bundle worth more.
pub proof fn law_bundles_grow_fourfold(r: Rarity)
    ensures
        r.spec_upgrade() matches Some(n) ==> bundle_points(n) == 4 * bundle_points(r),
{
}

} // verus!
