use post_push_party::game::treasure_depths::game::{
    BASE_INVENTORY_CAPACITY, BASE_REVEAL_RADIUS, BASE_STARTING_FUEL, BASE_STARTING_TIME,
};
use post_push_party::game::treasure_depths::store::{
    upgrade_cost, Store, TIER_COUNT, UPGRADE_COUNT, VISIBILITY,
};

const TEST_BUDGET: u64 = 10_000;

#[test]
fn new_store_has_full_budget_and_no_tiers() {
    let store = Store::new(TEST_BUDGET);
    assert_eq!(store.budget(), TEST_BUDGET);
    assert_eq!(store.spent(), 0);
    assert_eq!(store.remaining(), TEST_BUDGET);
}

#[test]
fn selection_clamps_at_both_ends() {
    let mut store = Store::new(TEST_BUDGET);

    store.select_prev();
    assert_eq!(store.selected(), 0);

    for _ in 0..10 {
        store.select_next();
    }
    assert_eq!(store.selected(), UPGRADE_COUNT - 1);
}

#[test]
fn raising_a_tier_spends_its_cost() {
    let mut store = Store::new(TEST_BUDGET);
    store.tier_up();

    assert_eq!(store.tier(VISIBILITY), 1);
    assert_eq!(store.spent(), upgrade_cost(VISIBILITY, 1));
}

#[test]
fn lowering_a_tier_refunds() {
    let mut store = Store::new(TEST_BUDGET);
    store.tier_up();
    store.tier_up();
    assert_eq!(store.tier(VISIBILITY), 2);

    store.tier_down();
    assert_eq!(store.tier(VISIBILITY), 1);
    assert_eq!(store.spent(), upgrade_cost(VISIBILITY, 1));
}

#[test]
fn tier_cannot_exceed_the_max() {
    let mut store = Store::new(TEST_BUDGET);
    for _ in 0..5 {
        store.tier_up();
    }
    assert_eq!(store.tier(VISIBILITY), TIER_COUNT - 1);
}

// a tight budget must block upgrades that would overspend
#[test]
fn tier_up_respects_a_tight_budget() {
    // only enough for the first visibility tier, nothing more
    let mut store = Store::new(upgrade_cost(VISIBILITY, 1));
    store.tier_up();
    assert_eq!(store.tier(VISIBILITY), 1);

    store.tier_up(); // tier 2 unaffordable
    assert_eq!(store.tier(VISIBILITY), 1);
    assert!(store.spent() <= store.budget());
}

// price-agnostic: derives expectations from the cost table so price tuning
// doesn't break it
#[test]
fn tier_up_never_overspends() {
    // a budget tight enough that maxing everything is impossible
    let mut store = Store::new(2_000);

    for upgrade in 0..UPGRADE_COUNT {
        if upgrade > 0 {
            store.select_next();
        }

        for _ in 0..TIER_COUNT {
            let before = store.tier(upgrade);
            store.tier_up();
            let after = store.tier(upgrade);

            // the invariant: never spend past the budget
            assert!(store.spent() <= store.budget());

            // a refused step that wasn't already maxed must be a budget block
            if after == before && before < TIER_COUNT - 1 {
                let step = upgrade_cost(upgrade, before + 1) - upgrade_cost(upgrade, before);
                assert!(step > store.remaining());
            }
        }
    }
}

#[test]
fn loadout_applies_tier_multipliers() {
    let mut store = Store::new(TEST_BUDGET);
    store.tier_up(); // visibility -> 2x

    let loadout = store.loadout();
    assert_eq!(loadout.reveal_radius, BASE_REVEAL_RADIUS * 2);

    // untouched upgrades stay at base
    assert_eq!(loadout.starting_fuel, BASE_STARTING_FUEL);
    assert_eq!(loadout.starting_time, BASE_STARTING_TIME);
    assert_eq!(loadout.inventory_capacity, BASE_INVENTORY_CAPACITY);
}

#[test]
fn loadout_multiplies_each_upgrade_independently() {
    let mut store = Store::new(TEST_BUDGET);

    // visibility 2x
    store.tier_up();
    // start time 2x
    store.select_next();
    store.tier_up();
    // inventory 2x
    store.select_next();
    store.select_next();
    store.tier_up();

    let loadout = store.loadout();
    assert_eq!(loadout.reveal_radius, BASE_REVEAL_RADIUS * 2);
    assert_eq!(loadout.starting_time, BASE_STARTING_TIME * 2);
    assert_eq!(loadout.inventory_capacity, BASE_INVENTORY_CAPACITY * 2);
    // fuel untouched
    assert_eq!(loadout.starting_fuel, BASE_STARTING_FUEL);
}

#[test]
fn shop_renders_its_rows_and_summary() {
    let mut store = Store::new(1_000);
    store.tier_up(); // visibility tier 1, costs 100
    let mut buf = String::new();
    store.render(&mut buf, (52, 12));
    // the panel sits in the top-left corner of a terminal just its size
    assert!(buf.starts_with("\x1b[48;2;0;0;0m\x1b[38;2;210;210;210m\x1b[1;1H▛"));
    assert!(buf.contains("\x1b[2;25H\x1b[38;2;250;230;120mSHOP"));
    // the highlighted first row: cursor, label, a slider with two cells filled
    assert!(buf.contains("\x1b[4;4H\x1b[38;2;250;230;120m▶"));
    assert!(buf.contains("\x1b[4;6H\x1b[38;2;255;255;255mVisibility"));
    assert!(buf.contains("\x1b[4;22H\x1b[38;2;90;220;120m##"));
    assert!(buf.contains("\x1b[4;24H\x1b[38;2;70;70;70m░"));
    assert!(buf.contains("\x1b[4;28H\x1b[38;2;210;210;210m2x"));
    // the price of the owned tier, right-aligned: 47 - len("100 P"), one-based
    assert!(buf.contains("\x1b[4;43H\x1b[38;2;230;230;230m100 P"));
    // an untouched row is free
    assert!(buf.contains("\x1b[5;45H\x1b[38;2;110;110;110m0 P"));
    assert!(buf.contains("\x1b[9;16H\x1b[38;2;210;210;210mSpent 100 P    Left "));
    assert!(buf.contains("\x1b[9;36H\x1b[38;2;90;220;120m900 P"));
    assert!(buf.ends_with("\x1b[11;5H\x1b[38;2;140;140;140m[↑↓] move  [←→] buy  [Enter] start  [Q] quit"));
}
