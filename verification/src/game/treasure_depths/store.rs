//! The pre-run upgrade shop: spend party points on tiers of four upgrades.

use vstd::prelude::*;

use super::menu::{center, centered, draw_box, text_seq, write_text, box_seq, BORDER_COLOR};
use vstd::seq_lib::lemma_concat_associative;
use crate::text::{decimal, decimal_digits, lemma_decimal_len, pow10, push_repeated, repeat_seq};
use super::game::{
    Loadout, BASE_INVENTORY_CAPACITY, BASE_REVEAL_RADIUS, BASE_STARTING_FUEL, BASE_STARTING_TIME,
};

verus! {

/// how many tiers each upgrade has
pub const TIER_COUNT: usize = 3;

/// how many upgrades are on sale
pub const UPGRADE_COUNT: usize = 4;

/// index of the visibility upgrade
pub const VISIBILITY: usize = 0;

/// index of the start-time upgrade
pub const START_TIME: usize = 1;

/// index of the fuel-tank upgrade
pub const FUEL_TANK: usize = 2;

/// index of the inventory upgrade
pub const INVENTORY: usize = 3;

pub const SHOP_TITLE_COLOR: (u8, u8, u8) = (250, 230, 120);

pub const CURSOR_COLOR: (u8, u8, u8) = (250, 230, 120);

pub const LABEL_SELECTED: (u8, u8, u8) = (255, 255, 255);

pub const LABEL_COLOR: (u8, u8, u8) = (170, 170, 170);

pub const SLIDER_FILL: (u8, u8, u8) = (90, 220, 120);

pub const SLIDER_EMPTY: (u8, u8, u8) = (70, 70, 70);

pub const COST_COLOR: (u8, u8, u8) = (230, 230, 230);

pub const COST_FREE: (u8, u8, u8) = (110, 110, 110);

pub const SHOP_TEXT_COLOR: (u8, u8, u8) = (210, 210, 210);

pub const REMAINING_COLOR: (u8, u8, u8) = (90, 220, 120);

pub const SHOP_FOOTER_COLOR: (u8, u8, u8) = (140, 140, 140);

/// the inside width of the shop panel
pub const INNER_WIDTH: usize = 50;

/// the inside height of the shop panel: title, blank, four upgrades,
/// blank, budget, blank, footer
pub const INNER_HEIGHT: usize = 10;

/// total cost (in party points) to own tier `tier` of upgrade `upgrade`;
/// tier 0 is always free
pub open spec fn spec_upgrade_cost(upgrade: int, tier: int) -> u64 {
    if tier == 0 {
        0
    } else if upgrade == VISIBILITY {
        if tier == 1 { 100 } else { 200 }
    } else if upgrade == START_TIME {
        if tier == 1 { 500 } else { 3000 }
    } else if upgrade == FUEL_TANK {
        if tier == 1 { 1000 } else { 5000 }
    } else {
        if tier == 1 { 1000 } else { 2000 }
    }
}

/// the price of tier `tier` of upgrade `upgrade`
pub fn upgrade_cost(upgrade: usize, tier: usize) -> (r: u64)
    requires
        upgrade < UPGRADE_COUNT,
        tier < TIER_COUNT,
    ensures
        r == spec_upgrade_cost(upgrade as int, tier as int),
{
    if tier == 0 {
        0
    } else if upgrade == VISIBILITY {
        if tier == 1 { 100 } else { 200 }
    } else if upgrade == START_TIME {
        if tier == 1 { 500 } else { 3000 }
    } else if upgrade == FUEL_TANK {
        if tier == 1 { 1000 } else { 5000 }
    } else {
        if tier == 1 { 1000 } else { 2000 }
    }
}

/// the label shown for upgrade `upgrade`
pub fn upgrade_label(upgrade: usize) -> (r: &'static str)
    requires
        upgrade < UPGRADE_COUNT,
    ensures
        r@ == (if upgrade == VISIBILITY {
            "Visibility"@
        } else if upgrade == START_TIME {
            "Start Time"@
        } else if upgrade == FUEL_TANK {
            "Fuel Tank"@
        } else {
            "Inventory"@
        }),
{
    if upgrade == VISIBILITY {
        "Visibility"
    } else if upgrade == START_TIME {
        "Start Time"
    } else if upgrade == FUEL_TANK {
        "Fuel Tank"
    } else {
        "Inventory"
    }
}

/// points spent on the selected tiers
pub open spec fn spent_on(tiers: Seq<usize>) -> int {
    spec_upgrade_cost(0, tiers[0] as int) + spec_upgrade_cost(1, tiers[1] as int) + spec_upgrade_cost(
        2,
        tiers[2] as int,
    ) + spec_upgrade_cost(3, tiers[3] as int)
}

/// the tiers after raising upgrade `sel` one tier, if that stays within the
/// budget; otherwise unchanged
pub open spec fn tiers_after_up(tiers: Seq<usize>, sel: int, budget: u64) -> Seq<usize> {
    let cur = tiers[sel];
    let raised = tiers.update(sel, (cur + 1) as usize);
    if cur + 1 < TIER_COUNT && spent_on(raised) <= budget {
        raised
    } else {
        tiers
    }
}

/// the tiers after lowering upgrade `sel` one tier, stopping at tier 0
pub open spec fn tiers_after_down(tiers: Seq<usize>, sel: int) -> Seq<usize> {
    let cur = tiers[sel];
    if cur == 0 {
        tiers
    } else {
        tiers.update(sel, (cur - 1) as usize)
    }
}

/// tiers that exist for every upgrade
pub open spec fn valid_tiers(tiers: Seq<usize>) -> bool {
    tiers.len() == UPGRADE_COUNT && forall|u: int| 0 <= u < UPGRADE_COUNT ==> #[trigger] tiers[u] < TIER_COUNT
}

/// the label shown for upgrade `upgrade`
pub open spec fn label_seq(upgrade: int) -> Seq<char> {
    if upgrade == VISIBILITY {
        "Visibility"@
    } else if upgrade == START_TIME {
        "Start Time"@
    } else if upgrade == FUEL_TANK {
        "Fuel Tank"@
    } else {
        "Inventory"@
    }
}

/// a price as shown: the points and a `P`
pub open spec fn price_seq(points: nat) -> Seq<char> {
    decimal_digits(points) + seq![' ', 'P']
}

/// One upgrade's row of the shop: a cursor on the highlighted row, the
/// label, a slider with a filled cell per owned tier, the multiplier, and the
/// price of the owned tier right-aligned in the panel.
pub open spec fn shop_row(upgrade: int, selected: bool, tier: nat, base: nat, top: nat) -> Seq<char> {
    let row = top + 3 + upgrade;
    let filled = tier + 1;
    let cost = spec_upgrade_cost(upgrade, tier as int);
    let price = price_seq(cost as nat);
    text_seq(row as nat, base + 3, if selected { "▶"@ } else { " "@ }, CURSOR_COLOR) + text_seq(
        row as nat,
        base + 5,
        label_seq(upgrade),
        if selected { LABEL_SELECTED } else { LABEL_COLOR },
    ) + text_seq(row as nat, base + 20, "["@, BORDER_COLOR) + text_seq(
        row as nat,
        base + 21,
        repeat_seq("#"@, filled),
        SLIDER_FILL,
    ) + text_seq(row as nat, (base + 21 + filled) as nat, repeat_seq("░"@, (TIER_COUNT - filled) as nat), SLIDER_EMPTY)
        + text_seq(row as nat, (base + 21 + TIER_COUNT) as nat, "]"@, BORDER_COLOR) + text_seq(
        row as nat,
        base + 27,
        decimal_digits(filled) + "x"@,
        SHOP_TEXT_COLOR,
    ) + text_seq(
        row as nat,
        (base + INNER_WIDTH - 3 - price.len()) as nat,
        price,
        if cost == 0 { COST_FREE } else { COST_COLOR },
    )
}

/// the rows of the first `n` upgrades
pub open spec fn shop_rows(selected: usize, tiers: Seq<usize>, base: nat, top: nat, n: nat) -> Seq<char>
    decreases n,
{
    if n == 0 {
        Seq::empty()
    } else {
        shop_rows(selected, tiers, base, top, (n - 1) as nat) + shop_row(
            n - 1,
            selected == n - 1,
            tiers[n - 1] as nat,
            base,
            top,
        )
    }
}

/// the shop's footer hint
pub open spec fn shop_footer() -> Seq<char> {
    "[↑↓] move  [←→] buy  [Enter] start  [Q] quit"@
}

/// What the shop draws, centered in a terminal of size `term`: its box,
/// the title, a row per upgrade, what is spent and what is left, and the
/// footer hint.
pub open spec fn shop_seq(selected: usize, tiers: Seq<usize>, budget: u64, term: (usize, usize)) -> Seq<char> {
    let (base, top) = centered(term, (INNER_WIDTH + 2) as nat, (INNER_HEIGHT + 2) as nat);
    let spent = spent_on(tiers);
    let summary = "Spent "@ + decimal_digits(spent as nat) + " P    Left "@;
    box_seq((base as usize, top as usize), INNER_WIDTH as nat, INNER_HEIGHT as nat) + text_seq(
        top + 1,
        base + 1 + (INNER_WIDTH - "SHOP"@.len()) as nat / 2,
        "SHOP"@,
        SHOP_TITLE_COLOR,
    ) + shop_rows(selected, tiers, base, top, UPGRADE_COUNT as nat) + text_seq(
        top + 8,
        base + 15,
        summary,
        SHOP_TEXT_COLOR,
    ) + text_seq(top + 8, base + 15 + summary.len(), price_seq((budget - spent) as nat), REMAINING_COLOR)
        + text_seq(top + 10, base + 1 + (INNER_WIDTH - shop_footer().len()) as nat / 2, shop_footer(), SHOP_FOOTER_COLOR)
}

/// draws one upgrade's row of the shop
fn render_row(buf: &mut String, upgrade: usize, selected: bool, tier: usize, base: usize, top: usize)
    requires
        upgrade < UPGRADE_COUNT,
        tier < TIER_COUNT,
        base <= usize::MAX / 2,
        top <= usize::MAX / 2,
    ensures
        final(buf)@ == old(buf)@ + shop_row(upgrade as int, selected, tier as nat, base as nat, top as nat),
{
    let cursor_col = base + 3;
    let label_col = base + 5;
    let slider_col = base + 20;
    let tier_col = base + 27;
    let row = top + 3 + upgrade;
    let ghost r = row as nat;
    let ghost b = base as nat;
    let ghost start = buf@;

    let cursor = if selected {
        "▶"
    } else {
        " "
    };
    let label_color = if selected {
        LABEL_SELECTED
    } else {
        LABEL_COLOR
    };
    write_text(buf, row, cursor_col, cursor, CURSOR_COLOR);
    let ghost t1 = text_seq(r, b + 3, cursor@, CURSOR_COLOR);
    write_text(buf, row, label_col, upgrade_label(upgrade), label_color);
    let ghost t2 = text_seq(r, b + 5, label_seq(upgrade as int), label_color);

    // slider: [###] with `tier + 1` filled cells
    let filled = tier + 1;
    let empty = TIER_COUNT - filled;
    write_text(buf, row, slider_col, "[", BORDER_COLOR);
    let ghost t3 = text_seq(r, b + 20, "["@, BORDER_COLOR);
    let mut fill = String::new();
    push_repeated(&mut fill, "#", filled);
    write_text(buf, row, slider_col + 1, fill.as_str(), SLIDER_FILL);
    let ghost t4 = text_seq(r, b + 21, repeat_seq("#"@, filled as nat), SLIDER_FILL);
    let mut rest = String::new();
    push_repeated(&mut rest, "░", empty);
    write_text(buf, row, slider_col + 1 + filled, rest.as_str(), SLIDER_EMPTY);
    let ghost t5 = text_seq(r, (b + 21 + filled) as nat, repeat_seq("░"@, empty as nat), SLIDER_EMPTY);
    write_text(buf, row, slider_col + 1 + TIER_COUNT, "]", BORDER_COLOR);
    let ghost t6 = text_seq(r, (b + 21 + TIER_COUNT) as nat, "]"@, BORDER_COLOR);

    // tier multiplier
    let mut mult = decimal(filled as u64);
    mult.append("x");
    write_text(buf, row, tier_col, mult.as_str(), SHOP_TEXT_COLOR);
    let ghost t7 = text_seq(r, b + 27, decimal_digits(filled as nat) + "x"@, SHOP_TEXT_COLOR);

    // cost, right-aligned within the box
    let cost = upgrade_cost(upgrade, tier);
    let mut price = decimal(cost);
    price.append(" P");
    proof {
        reveal_strlit(" P");
        assert(pow10(4) == 10000) by {
            reveal_with_fuel(pow10, 5);
        }
        lemma_decimal_len(cost as nat, 4);
        assert(price@ == price_seq(cost as nat));
    }
    let cost_col = base + INNER_WIDTH - 3 - price.unicode_len();
    let cost_color = if cost == 0 {
        COST_FREE
    } else {
        COST_COLOR
    };
    write_text(buf, row, cost_col, price.as_str(), cost_color);
    let ghost t8 = text_seq(r, cost_col as nat, price_seq(cost as nat), cost_color);
    proof {
        assert(buf@ == start + t1 + t2 + t3 + t4 + t5 + t6 + t7 + t8);
        lemma_concat_associative(start, t1, t2);
        lemma_concat_associative(start, t1 + t2, t3);
        lemma_concat_associative(start, t1 + t2 + t3, t4);
        lemma_concat_associative(start, t1 + t2 + t3 + t4, t5);
        lemma_concat_associative(start, t1 + t2 + t3 + t4 + t5, t6);
        lemma_concat_associative(start, t1 + t2 + t3 + t4 + t5 + t6, t7);
        lemma_concat_associative(start, t1 + t2 + t3 + t4 + t5 + t6 + t7, t8);
        assert(shop_row(upgrade as int, selected, tier as nat, b, top as nat) == t1 + t2 + t3 + t4 + t5 + t6 + t7 + t8);
    }
}

/// draws what is spent and what is left, and the footer hint
fn render_summary(buf: &mut String, spent: u64, left: u64, base: usize, top: usize)
    requires
        base <= usize::MAX / 2,
        top <= usize::MAX / 2,
    ensures
        ({
            let summary = "Spent "@ + decimal_digits(spent as nat) + " P    Left "@;
            final(buf)@ == old(buf)@ + text_seq((top + 8) as nat, (base + 15) as nat, summary, SHOP_TEXT_COLOR)
                + text_seq((top + 8) as nat, (base + 15 + summary.len()) as nat, price_seq(left as nat), REMAINING_COLOR)
                + text_seq(
                (top + 10) as nat,
                (base + 1 + (INNER_WIDTH - shop_footer().len()) as nat / 2) as nat,
                shop_footer(),
                SHOP_FOOTER_COLOR,
            )
        }),
{
    proof {
        reveal_strlit("[↑↓] move  [←→] buy  [Enter] start  [Q] quit");
        reveal_strlit("Spent ");
        reveal_strlit(" P    Left ");
        reveal_strlit(" P");
        assert(pow10(20) == 100_000_000_000_000_000_000) by {
            reveal_with_fuel(pow10, 21);
        }
        lemma_decimal_len(spent as nat, 20);
    }
    let mut summary = "Spent ".to_string();
    summary.append(decimal(spent).as_str());
    summary.append(" P    Left ");
    let summary_col = base + 15;
    write_text(buf, top + 8, summary_col, summary.as_str(), SHOP_TEXT_COLOR);
    let mut rest = decimal(left);
    rest.append(" P");
    assert(" P"@ =~= seq![' ', 'P']);
    assert(rest@ =~= price_seq(left as nat));
    write_text(buf, top + 8, summary_col + summary.unicode_len(), rest.as_str(), REMAINING_COLOR);

    let footer = "[↑↓] move  [←→] buy  [Enter] start  [Q] quit";
    let footer_col = base + 1 + (INNER_WIDTH - footer.unicode_len()) / 2;
    write_text(buf, top + 10, footer_col, footer, SHOP_FOOTER_COLOR);
}

pub struct Store {
    /// the player's available party points; the spending cap
    budget: u64,
    /// which upgrade row is highlighted
    selected: usize,
    /// selected tier index per upgrade
    tiers: Vec<usize>,
}

impl Store {
    /// the spending cap
    pub closed spec fn spec_budget(&self) -> u64 {
        self.budget
    }

    /// the highlighted upgrade
    pub closed spec fn spec_selected(&self) -> usize {
        self.selected
    }

    /// the chosen tier of each upgrade
    pub closed spec fn spec_tiers(&self) -> Seq<usize> {
        self.tiers@
    }

    /// points spent on the chosen tiers
    pub open spec fn spec_spent(&self) -> int {
        spent_on(self.spec_tiers())
    }

    /// a highlighted row that exists, tiers that exist, and no overspending
    pub open spec fn wf(&self) -> bool {
        &&& self.spec_selected() < UPGRADE_COUNT
        &&& valid_tiers(self.spec_tiers())
        &&& self.spec_spent() <= self.spec_budget()
    }

    #[verifier::type_invariant]
    spec fn inv(&self) -> bool {
        self.wf()
    }

    /// the budget is the player's current party-point balance
    pub fn new(budget: u64) -> (s: Self)
        ensures
            s.spec_budget() == budget,
            s.spec_selected() == 0,
            s.spec_tiers() == seq![0usize, 0usize, 0usize, 0usize],
            s.wf(),
    {
        Self { budget, selected: 0, tiers: vec![0, 0, 0, 0] }
    }

    /// move the highlight to the previous upgrade
    pub fn select_prev(&mut self)
        ensures
            final(self).wf(),
            final(self).spec_selected() == if old(self).spec_selected() == 0 {
                0
            } else {
                (old(self).spec_selected() - 1) as usize
            },
            final(self).spec_budget() == old(self).spec_budget(),
            final(self).spec_tiers() == old(self).spec_tiers(),
    {
        proof {
            use_type_invariant(&*self);
        }
        self.selected = self.selected.saturating_sub(1);
    }

    /// move the highlight to the next upgrade
    pub fn select_next(&mut self)
        ensures
            final(self).wf(),
            final(self).spec_selected() == if old(self).spec_selected() + 1 < UPGRADE_COUNT {
                (old(self).spec_selected() + 1) as usize
            } else {
                (UPGRADE_COUNT - 1) as usize
            },
            final(self).spec_budget() == old(self).spec_budget(),
            final(self).spec_tiers() == old(self).spec_tiers(),
    {
        proof {
            use_type_invariant(&*self);
        }
        let next = self.selected + 1;
        self.selected = if next < UPGRADE_COUNT {
            next
        } else {
            UPGRADE_COUNT - 1
        };
    }

    /// raise the selected upgrade one tier, if affordable
    pub fn tier_up(&mut self)
        ensures
            final(self).wf(),
            final(self).spec_tiers() == tiers_after_up(
                old(self).spec_tiers(),
                old(self).spec_selected() as int,
                old(self).spec_budget(),
            ),
            final(self).spec_selected() == old(self).spec_selected(),
            final(self).spec_budget() == old(self).spec_budget(),
    {
        proof {
            use_type_invariant(&*self);
        }
        let sel = self.selected;
        let cur = self.tiers[sel];
        if cur + 1 >= TIER_COUNT {
            return;
        }

        let next = cur + 1;
        let new_spent = self.spent() - upgrade_cost(sel, cur) + upgrade_cost(sel, next);
        proof {
            assert(spent_on(self.tiers@.update(sel as int, next)) == new_spent);
        }
        if new_spent <= self.budget {
            self.set_tier(sel, next);
        }
    }

    /// sets the tier of one upgrade, keeping the store valid
    fn set_tier(&mut self, upgrade: usize, tier: usize)
        requires
            upgrade < UPGRADE_COUNT,
            tier < TIER_COUNT,
            spent_on(old(self).spec_tiers().update(upgrade as int, tier)) <= old(self).spec_budget(),
        ensures
            final(self).spec_tiers() == old(self).spec_tiers().update(upgrade as int, tier),
            final(self).spec_selected() == old(self).spec_selected(),
            final(self).spec_budget() == old(self).spec_budget(),
    {
        proof {
            use_type_invariant(&*self);
        }
        let mut tiers = self.tiers.clone();
        tiers.set(upgrade, tier);
        self.tiers = tiers;
    }

    /// lower the selected upgrade one tier, refunding the difference
    pub fn tier_down(&mut self)
        ensures
            final(self).wf(),
            final(self).spec_tiers() == tiers_after_down(
                old(self).spec_tiers(),
                old(self).spec_selected() as int,
            ),
            final(self).spec_selected() == old(self).spec_selected(),
            final(self).spec_budget() == old(self).spec_budget(),
    {
        proof {
            use_type_invariant(&*self);
        }
        let sel = self.selected;
        let cur = self.tiers[sel];
        if cur > 0 {
            proof {
                // a lower tier never costs more
                assert(spec_upgrade_cost(sel as int, (cur - 1) as int) <= spec_upgrade_cost(sel as int, cur as int));
            }
            self.set_tier(sel, cur - 1);
        }
    }

    pub fn selected(&self) -> (r: usize)
        ensures
            r == self.spec_selected(),
            r < UPGRADE_COUNT,
            self.wf(),
    {
        proof {
            use_type_invariant(self);
        }
        self.selected
    }

    pub fn tier(&self, upgrade: usize) -> (r: usize)
        requires
            upgrade < UPGRADE_COUNT,
        ensures
            r == self.spec_tiers()[upgrade as int],
            r < TIER_COUNT,
            self.wf(),
    {
        proof {
            use_type_invariant(self);
        }
        self.tiers[upgrade]
    }

    pub fn spent(&self) -> (r: u64)
        ensures
            r == self.spec_spent(),
            r <= self.spec_budget(),
    {
        proof {
            use_type_invariant(self);
        }
        upgrade_cost(0, self.tiers[0]) + upgrade_cost(1, self.tiers[1]) + upgrade_cost(2, self.tiers[2])
            + upgrade_cost(3, self.tiers[3])
    }

    pub fn remaining(&self) -> (r: u64)
        ensures
            r == self.spec_budget() - self.spec_spent(),
    {
        proof {
            use_type_invariant(self);
        }
        self.budget - self.spent()
    }

    /// the loadout described by the current tier selections: each upgrade
    /// multiplies its base value by one more than its tier
    pub fn loadout(&self) -> (l: Loadout)
        ensures
            l.reveal_radius == BASE_REVEAL_RADIUS * (self.spec_tiers()[VISIBILITY as int] + 1),
            l.starting_fuel == BASE_STARTING_FUEL * (self.spec_tiers()[FUEL_TANK as int] + 1),
            l.starting_time == BASE_STARTING_TIME * (self.spec_tiers()[START_TIME as int] + 1),
            l.inventory_capacity == BASE_INVENTORY_CAPACITY * (self.spec_tiers()[INVENTORY as int] + 1),
    {
        proof {
            use_type_invariant(self);
        }
        let vis = self.tiers[VISIBILITY] as i64 + 1;
        let fuel = self.tiers[FUEL_TANK] as u64 + 1;
        let time = self.tiers[START_TIME] as u64 + 1;
        let inv = self.tiers[INVENTORY] + 1;
        Loadout {
            reveal_radius: BASE_REVEAL_RADIUS * vis,
            starting_fuel: BASE_STARTING_FUEL * fuel,
            starting_time: BASE_STARTING_TIME * time,
            inventory_capacity: BASE_INVENTORY_CAPACITY * inv,
        }
    }

    /// Draws the shop centered in a terminal of size `term`.
    pub fn render(&self, buf: &mut String, term: (usize, usize))
        ensures
            final(buf)@ == old(buf)@ + shop_seq(self.spec_selected(), self.spec_tiers(), self.spec_budget(), term),
    {
        proof {
            use_type_invariant(self);
            reveal_strlit("SHOP");
        }
        let offset = center(term, INNER_WIDTH + 2, INNER_HEIGHT + 2);
        let (base, top) = offset;
        let ghost b = base as nat;
        let ghost t = top as nat;
        let ghost start = buf@;
        draw_box(buf, offset, INNER_WIDTH, INNER_HEIGHT);
        let ghost boxed = box_seq(offset, INNER_WIDTH as nat, INNER_HEIGHT as nat);

        // title
        let title = "SHOP";
        let title_col = base + 1 + (INNER_WIDTH - title.unicode_len()) / 2;
        write_text(buf, top + 1, title_col, title, SHOP_TITLE_COLOR);
        let ghost titled = text_seq(t + 1, title_col as nat, "SHOP"@, SHOP_TITLE_COLOR);
        let ghost head = buf@;

        // upgrade rows
        let mut i: usize = 0;
        while i < UPGRADE_COUNT
            invariant
                0 <= i <= UPGRADE_COUNT,
                self.wf(),
                base <= usize::MAX / 2,
                top <= usize::MAX / 2,
                buf@ == head + shop_rows(self.spec_selected(), self.spec_tiers(), base as nat, top as nat, i as nat),
            decreases UPGRADE_COUNT - i,
        {
            let selected = i == self.selected();
            let tier = self.tier(i);
            render_row(buf, i, selected, tier, base, top);
            i = i + 1;
        }

        let ghost rows = shop_rows(self.spec_selected(), self.spec_tiers(), b, t, UPGRADE_COUNT as nat);
        let ghost before_summary = buf@;

        // budget summary and footer hint
        let spent = self.spent();
        let left = self.remaining();
        render_summary(buf, spent, left, base, top);
        proof {
            let summary = "Spent "@ + decimal_digits(spent as nat) + " P    Left "@;
            let s1 = text_seq(t + 8, b + 15, summary, SHOP_TEXT_COLOR);
            let s2 = text_seq(t + 8, (b + 15 + summary.len()) as nat, price_seq(left as nat), REMAINING_COLOR);
            let s3 = text_seq(
                t + 10,
                (b + 1 + (INNER_WIDTH - shop_footer().len()) as nat / 2) as nat,
                shop_footer(),
                SHOP_FOOTER_COLOR,
            );
            assert(buf@ == start + boxed + titled + rows + s1 + s2 + s3);
            lemma_concat_associative(start, boxed, titled);
            lemma_concat_associative(start, boxed + titled, rows);
            lemma_concat_associative(start, boxed + titled + rows, s1);
            lemma_concat_associative(start, boxed + titled + rows + s1, s2);
            lemma_concat_associative(start, boxed + titled + rows + s1 + s2, s3);
            assert(shop_seq(self.spec_selected(), self.spec_tiers(), self.spec_budget(), term) == boxed + titled + rows
                + s1 + s2 + s3);
        }
    }

    /// the budget the store was opened with
    pub fn budget(&self) -> (r: u64)
        ensures
            r == self.spec_budget(),
            self.wf(),
    {
        proof {
            use_type_invariant(self);
        }
        self.budget
    }
}

/// Raising a tier never spends past the budget; a raise that is refused
/// although the tier is not maxed costs more than what is left.
pub proof fn law_tier_up_never_overspends(tiers: Seq<usize>, sel: int, budget: u64)
    requires
        valid_tiers(tiers),
        0 <= sel < UPGRADE_COUNT,
        spent_on(tiers) <= budget,
    ensures
        valid_tiers(tiers_after_up(tiers, sel, budget)),
        spent_on(tiers_after_up(tiers, sel, budget)) <= budget,
        tiers_after_up(tiers, sel, budget) == tiers && tiers[sel] + 1 < TIER_COUNT ==> spec_upgrade_cost(
            sel,
            tiers[sel] + 1,
        ) - spec_upgrade_cost(sel, tiers[sel] as int) > budget - spent_on(tiers),
{
    let raised = tiers.update(sel, (tiers[sel] + 1) as usize);
    assert(raised[sel] == tiers[sel] + 1);
}

/// Lowering a tier refunds: it never increases what is spent.
pub proof fn law_tier_down_refunds(tiers: Seq<usize>, sel: int)
    requires
        valid_tiers(tiers),
        0 <= sel < UPGRADE_COUNT,
    ensures
        valid_tiers(tiers_after_down(tiers, sel)),
        spent_on(tiers_after_down(tiers, sel)) <= spent_on(tiers),
{
}

/// A raise that went through is undone by lowering the same upgrade.
pub proof fn law_tier_down_undoes_tier_up(tiers: Seq<usize>, sel: int, budget: u64)
    requires
        valid_tiers(tiers),
        0 <= sel < UPGRADE_COUNT,
        tiers_after_up(tiers, sel, budget) != tiers,
    ensures
        tiers_after_down(tiers_after_up(tiers, sel, budget), sel) == tiers,
{
    let raised = tiers.update(sel, (tiers[sel] + 1) as usize);
    assert(raised.update(sel, tiers[sel]) =~= tiers);
}

} // verus!
