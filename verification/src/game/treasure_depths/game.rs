//! The rules of a treasure-depths run: moving and digging through the
//! world, fuel, time, the inventory and the bank. What the world holds where
//! is rolled from noise outside the rules and handed in.

use std::collections::HashMap;

use vstd::prelude::*;

use crate::text::{decimal, decimal_digits};

verus! {

/// a move the player asks for
#[derive(Debug, Clone, Copy, PartialEq, Eq, Structural)]
pub enum Input {
    Up,
    Down,
    Right,
    Left,
}

/// rows of sky above the ground
pub const SKY_HEIGHT: i64 = 12;

/// fog reveal radius without upgrades
pub const BASE_REVEAL_RADIUS: i64 = 3;

/// inventory slots without upgrades
pub const BASE_INVENTORY_CAPACITY: usize = 20;

/// fuel in a full tank without upgrades
pub const BASE_STARTING_FUEL: u64 = 1000;

/// seconds on the clock at the start of a run without upgrades
pub const BASE_STARTING_TIME: u64 = 60;

/// per-run configuration produced by the store
#[derive(Debug, Clone, Copy, PartialEq, Eq, Structural)]
pub struct Loadout {
    /// fog reveal radius
    pub reveal_radius: i64,
    /// fuel in a full tank
    pub starting_fuel: u64,
    /// seconds on the clock at the start
    pub starting_time: u64,
    /// inventory slots
    pub inventory_capacity: usize,
}

impl Loadout {
    /// the default, un-upgraded loadout
    pub fn base() -> (l: Self)
        ensures
            l == (Loadout {
                reveal_radius: BASE_REVEAL_RADIUS,
                starting_fuel: BASE_STARTING_FUEL,
                starting_time: BASE_STARTING_TIME,
                inventory_capacity: BASE_INVENTORY_CAPACITY,
            }),
    {
        Loadout {
            reveal_radius: BASE_REVEAL_RADIUS,
            starting_fuel: BASE_STARTING_FUEL,
            starting_time: BASE_STARTING_TIME,
            inventory_capacity: BASE_INVENTORY_CAPACITY,
        }
    }
}

/// what can be found underground
#[derive(Debug, Clone, Copy, PartialEq, Eq, Hash, Structural)]
pub enum CollectibleKind {
    Silver,
    Gold,
    Diamond,
    Ruby,
    Fuel,
    Time,
}

impl CollectibleKind {
    pub open spec fn spec_value(self) -> u64 {
        match self {
            CollectibleKind::Silver => 1,
            CollectibleKind::Gold => 5,
            CollectibleKind::Diamond => 200,
            CollectibleKind::Ruby => 1_000,
            CollectibleKind::Fuel => 0,
            CollectibleKind::Time => 0,
        }
    }

    /// party points a banked collectible is worth
    pub fn value(&self) -> (r: u64)
        ensures
            r == self.spec_value(),
    {
        match self {
            CollectibleKind::Silver => 1,
            CollectibleKind::Gold => 5,
            CollectibleKind::Diamond => 200,
            CollectibleKind::Ruby => 1_000,
            CollectibleKind::Fuel => 0,
            CollectibleKind::Time => 0,
        }
    }
}

/// notices shown under the game
#[derive(Debug, Clone, Copy, PartialEq, Eq, Structural)]
pub enum Message {
    Start,
    FuelLow,
    TimeLow,
    FuelAdded,
    TimeAdded,
    InventoryFull,
    SurfaceRefill(u64),
}

impl Message {
    pub open spec fn spec_text(self) -> Seq<char> {
        match self {
            Message::Start => "Press an arrow key to move."@,
            Message::FuelAdded => "Found some extra fuel!"@,
            Message::TimeAdded => "Extra time added!"@,
            Message::FuelLow => "Warning: low fuel!"@,
            Message::TimeLow => "You're running out of time!"@,
            Message::SurfaceRefill(v) => "Fuel refilled! Banked "@ + decimal_digits(v as nat) + " P!"@,
            Message::InventoryFull => "Your inventory is full!"@,
        }
    }

    /// the notice as displayed
    pub fn text(&self) -> (r: String)
        ensures
            r@ == self.spec_text(),
    {
        match self {
            Message::Start => "Press an arrow key to move.".to_string(),
            Message::FuelAdded => "Found some extra fuel!".to_string(),
            Message::TimeAdded => "Extra time added!".to_string(),
            Message::FuelLow => "Warning: low fuel!".to_string(),
            Message::TimeLow => "You're running out of time!".to_string(),
            Message::SurfaceRefill(v) => {
                let mut s = "Fuel refilled! Banked ".to_string();
                s.append(decimal(*v).as_str());
                s.append(" P!");
                s
            },
            Message::InventoryFull => "Your inventory is full!".to_string(),
        }
    }
}

} // verus!

verus! {

/// what a tile of the world is
#[derive(Debug, Clone, Copy, PartialEq, Eq, Structural)]
pub enum TileKind {
    /// diggable ground, `depth` rows below the surface
    Ground { depth: i64 },
    Sky,
    Collectible { kind: CollectibleKind },
    /// dug-out ground
    Tunnel,
    Rock,
}

/// a tile and whether the player has seen it yet
#[derive(Debug, Clone, Copy, PartialEq, Eq, Structural)]
pub enum Tile {
    Visible(TileKind),
    Fog(TileKind),
}

impl Tile {
    pub open spec fn inner(self) -> TileKind {
        match self {
            Tile::Visible(k) => k,
            Tile::Fog(k) => k,
        }
    }

    pub open spec fn spec_is_rock(self) -> bool {
        self.inner() is Rock
    }

    pub open spec fn spec_is_ground(self) -> bool {
        self.inner() is Ground
    }

    pub fn is_rock(&self) -> (r: bool)
        ensures
            r == self.spec_is_rock(),
    {
        match self {
            Tile::Visible(TileKind::Rock) | Tile::Fog(TileKind::Rock) => true,
            _ => false,
        }
    }

    pub fn is_ground(&self) -> (r: bool)
        ensures
            r == self.spec_is_ground(),
    {
        match self {
            Tile::Visible(TileKind::Ground { .. }) | Tile::Fog(TileKind::Ground { .. }) => true,
            _ => false,
        }
    }
}

/// A freshly generated tile: the sky is always in view; below it lies
/// fogged rock, a collectible, or ground, as the world's rolls say (rock
/// wins over a collectible).
pub open spec fn spec_new_tile(pos: (i64, i64), rock: bool, collectible: Option<CollectibleKind>) -> Tile {
    if pos.1 < SKY_HEIGHT {
        Tile::Visible(TileKind::Sky)
    } else if rock {
        Tile::Fog(TileKind::Rock)
    } else {
        match collectible {
            Some(kind) => Tile::Fog(TileKind::Collectible { kind }),
            None => Tile::Fog(TileKind::Ground { depth: (pos.1 - SKY_HEIGHT) as i64 }),
        }
    }
}

pub fn new_tile(pos: (i64, i64), rock: bool, collectible: Option<CollectibleKind>) -> (t: Tile)
    ensures
        t == spec_new_tile(pos, rock, collectible),
{
    if pos.1 < SKY_HEIGHT {
        Tile::Visible(TileKind::Sky)
    } else if rock {
        Tile::Fog(TileKind::Rock)
    } else {
        match collectible {
            Some(kind) => Tile::Fog(TileKind::Collectible { kind }),
            None => Tile::Fog(TileKind::Ground { depth: pos.1 - SKY_HEIGHT }),
        }
    }
}

/// the number of kinds of collectible
pub const KIND_COUNT: usize = 6;

/// the slot a kind of collectible is counted in
pub open spec fn kind_index(kind: CollectibleKind) -> int {
    match kind {
        CollectibleKind::Silver => 0,
        CollectibleKind::Gold => 1,
        CollectibleKind::Diamond => 2,
        CollectibleKind::Ruby => 3,
        CollectibleKind::Fuel => 4,
        CollectibleKind::Time => 5,
    }
}

/// the kind of collectible counted in slot `i`
pub open spec fn kind_at(i: int) -> CollectibleKind {
    if i == 0 {
        CollectibleKind::Silver
    } else if i == 1 {
        CollectibleKind::Gold
    } else if i == 2 {
        CollectibleKind::Diamond
    } else if i == 3 {
        CollectibleKind::Ruby
    } else if i == 4 {
        CollectibleKind::Fuel
    } else {
        CollectibleKind::Time
    }
}

fn slot(kind: CollectibleKind) -> (r: usize)
    ensures
        r == kind_index(kind),
        r < KIND_COUNT,
{
    match kind {
        CollectibleKind::Silver => 0,
        CollectibleKind::Gold => 1,
        CollectibleKind::Diamond => 2,
        CollectibleKind::Ruby => 3,
        CollectibleKind::Fuel => 4,
        CollectibleKind::Time => 5,
    }
}

fn kind_of_slot(i: usize) -> (k: CollectibleKind)
    requires
        i < KIND_COUNT,
    ensures
        k == kind_at(i as int),
        kind_index(k) == i,
{
    if i == 0 {
        CollectibleKind::Silver
    } else if i == 1 {
        CollectibleKind::Gold
    } else if i == 2 {
        CollectibleKind::Diamond
    } else if i == 3 {
        CollectibleKind::Ruby
    } else if i == 4 {
        CollectibleKind::Fuel
    } else {
        CollectibleKind::Time
    }
}

/// how many items the first `n` slots of `counts` hold
pub open spec fn items_in(counts: Seq<usize>, n: int) -> int
    decreases n,
{
    if n <= 0 {
        0
    } else {
        items_in(counts, n - 1) + counts[n - 1]
    }
}

/// what the items in the first `n` slots of `counts` are worth
pub open spec fn worth_of(counts: Seq<usize>, n: int) -> int
    decreases n,
{
    if n <= 0 {
        0
    } else {
        worth_of(counts, n - 1) + counts[n - 1] * kind_at(n - 1).spec_value()
    }
}

/// how many items are held, over all kinds
pub open spec fn item_count(counts: Seq<usize>) -> int {
    items_in(counts, KIND_COUNT as int)
}

/// what the held items are worth in party points
pub open spec fn worth(counts: Seq<usize>) -> int {
    worth_of(counts, KIND_COUNT as int)
}

proof fn lemma_prefix_sums_nonneg(counts: Seq<usize>, n: int)
    ensures
        0 <= items_in(counts, n),
        0 <= worth_of(counts, n),
    decreases n,
{
    if n > 0 {
        lemma_prefix_sums_nonneg(counts, n - 1);
        assert(counts[n - 1] * kind_at(n - 1).spec_value() >= 0) by (nonlinear_arith);
    }
}

proof fn lemma_prefix_sums_grow(counts: Seq<usize>, n: int, m: int)
    requires
        0 <= n <= m,
    ensures
        items_in(counts, n) <= items_in(counts, m),
        worth_of(counts, n) <= worth_of(counts, m),
    decreases m - n,
{
    if m > n {
        lemma_prefix_sums_grow(counts, n, m - 1);
        assert(counts[m - 1] * kind_at(m - 1).spec_value() >= 0) by (nonlinear_arith);
    }
}

/// tiles are filed in the world's map under one integer per position
pub open spec fn spec_tile_key(pos: (i64, i64)) -> i128 {
    (pos.0 * 0x1_0000_0000_0000_0000int + (pos.1 + 0x8000_0000_0000_0000int)) as i128
}

proof fn lemma_tile_key_fits(pos: (i64, i64))
    ensures
        spec_tile_key(pos) == pos.0 * 0x1_0000_0000_0000_0000int + (pos.1 + 0x8000_0000_0000_0000int),
{
    let a = pos.0 as int;
    let b = pos.1 + 0x8000_0000_0000_0000int;
    assert(-0x8000_0000_0000_0000int <= a < 0x8000_0000_0000_0000int);
    assert(0 <= b < 0x1_0000_0000_0000_0000int);
    assert(-0x8000_0000_0000_0000_0000_0000_0000_0000int <= a * 0x1_0000_0000_0000_0000int + b
        < 0x8000_0000_0000_0000_0000_0000_0000_0000int) by (nonlinear_arith)
        requires
            -0x8000_0000_0000_0000int <= a < 0x8000_0000_0000_0000int,
            0 <= b < 0x1_0000_0000_0000_0000int,
    ;
}

proof fn lemma_tile_key_injective(p: (i64, i64), q: (i64, i64))
    requires
        spec_tile_key(p) == spec_tile_key(q),
    ensures
        p == q,
{
    lemma_tile_key_fits(p);
    lemma_tile_key_fits(q);
    let (a, b) = (p.0 as int, p.1 + 0x8000_0000_0000_0000int);
    let (c, d) = (q.0 as int, q.1 + 0x8000_0000_0000_0000int);
    assert(a == c && b == d) by (nonlinear_arith)
        requires
            a * 0x1_0000_0000_0000_0000int + b == c * 0x1_0000_0000_0000_0000int + d,
            0 <= b < 0x1_0000_0000_0000_0000int,
            0 <= d < 0x1_0000_0000_0000_0000int,
    ;
}

fn tile_key(pos: (i64, i64)) -> (k: i128)
    ensures
        k == spec_tile_key(pos),
{
    proof {
        lemma_tile_key_fits(pos);
    }
    (pos.0 as i128) * 0x1_0000_0000_0000_0000i128 + (pos.1 as i128 + 0x8000_0000_0000_0000i128)
}

/// the world's tiles by position, as filed under their keys
pub open spec fn tiles_by_pos(m: Map<i128, Tile>) -> Map<(i64, i64), Tile> {
    Map::new(|p: (i64, i64)| m.contains_key(spec_tile_key(p)), |p: (i64, i64)| m[spec_tile_key(p)])
}

proof fn lemma_tiles_insert(m: Map<i128, Tile>, pos: (i64, i64), t: Tile)
    ensures
        tiles_by_pos(m.insert(spec_tile_key(pos), t)) == tiles_by_pos(m).insert(pos, t),
{
    assert forall|p: (i64, i64)| #[trigger] tiles_by_pos(m.insert(spec_tile_key(pos), t)).contains_key(p)
        == tiles_by_pos(m).insert(pos, t).contains_key(p) by {
        if spec_tile_key(p) == spec_tile_key(pos) {
            lemma_tile_key_injective(p, pos);
        }
    }
    assert forall|p: (i64, i64)| tiles_by_pos(m.insert(spec_tile_key(pos), t)).contains_key(p) implies #[trigger] tiles_by_pos(
        m.insert(spec_tile_key(pos), t),
    )[p] == tiles_by_pos(m).insert(pos, t)[p] by {
        if spec_tile_key(p) == spec_tile_key(pos) {
            lemma_tile_key_injective(p, pos);
        }
    }
    assert(tiles_by_pos(m.insert(spec_tile_key(pos), t)) =~= tiles_by_pos(m).insert(pos, t));
}

} // verus!

verus! {

/// fuel a fuel collectible adds, up to a full tank
pub const FUEL_COLLECTIBLE_GAIN: i64 = 250;

/// fuel one step into open space costs
pub const MOVE_FUEL_COST: i64 = 2;

/// fuel digging out one tile costs
pub const DIG_FUEL_COST: i64 = 5;

/// nanoseconds in a second; run time is kept in nanoseconds
pub const SECOND: u128 = 1_000_000_000;

/// how long a notice stays up, in nanoseconds
pub const MESSAGE_DISPLAY_TIME: u128 = 3_000_000_000;

/// below this much time left, in nanoseconds, the player is warned
pub const LOW_TIME_MESSAGE_THRESHOLD: u128 = 15_000_000_000;

/// time a time collectible adds, in nanoseconds
pub const TIME_COLLECTIBLE_GAIN: u128 = 15_000_000_000;

/// the longest span of time there is, in nanoseconds
pub const MAX_TIME: u128 = 18_446_744_073_709_551_615_999_999_999;

/// the largest reveal radius and tank whose distance and fill checks are
/// exact; beyond them the checks round
pub const MAX_REVEAL_RADIUS: i64 = 0x10_0000;

pub const MAX_TANK: u64 = 0x4_0000_0000_0000;

/// below this row a run can no longer move down
pub const DEEPEST_ROW: i64 = 0x4000_0000_0000_0000;

/// a run as its rules see it
pub struct RunView {
    /// world width in tiles
    pub width: usize,
    /// the player's (x, y)
    pub pos: (i64, i64),
    /// deepest depth reached this run
    pub max_depth: i64,
    pub reveal_radius: i64,
    /// fuel in a full tank
    pub starting_fuel: u64,
    pub inventory_capacity: usize,
    /// the move to make on the next tick
    pub next_input: Option<Input>,
    /// whether the clock has started
    pub started: bool,
    /// the tiles generated so far
    pub tiles: Map<(i64, i64), Tile>,
    /// items carried, by slot
    pub inventory: Seq<usize>,
    /// items secured at the surface, by slot
    pub bank: Seq<usize>,
    pub fuel: i64,
    /// time left, in nanoseconds
    pub time: u128,
    /// the notice on show, and when it was posted
    pub message: Option<(Message, u128)>,
}

/// the depth of a position: 0 at the surface row, counting down
pub open spec fn depth_at(pos: (i64, i64)) -> int {
    pos.1 - SKY_HEIGHT + 1
}

pub open spec fn min_int(a: int, b: int) -> int {
    if a < b { a } else { b }
}

pub open spec fn max_int(a: int, b: int) -> int {
    if a > b { a } else { b }
}

/// where a move takes the player: never above the surface row, never off
/// the sides of the world
pub open spec fn target_of(v: RunView, input: Input) -> (i64, i64) {
    match input {
        Input::Up => (v.pos.0, max_int(v.pos.1 - 1, SKY_HEIGHT - 1) as i64),
        Input::Down => (v.pos.0, (v.pos.1 + 1) as i64),
        Input::Right => (min_int(v.pos.0 + 1, v.width - 1) as i64, v.pos.1),
        Input::Left => (max_int(v.pos.0 - 1, 0) as i64, v.pos.1),
    }
}

/// a notice goes up, unless the same notice is already up
pub open spec fn with_message(v: RunView, m: Message, now: u128) -> RunView {
    match v.message {
        Some((shown, _)) if shown == m => v,
        _ => RunView { message: Some((m, now)), ..v },
    }
}

/// whether a tank holding `fuel` is below a fifth full
pub open spec fn fuel_low(fuel: int, starting_fuel: u64) -> bool {
    5 * fuel < starting_fuel
}

/// fuel is burnt; dropping below a fifth of a tank warns the player
pub open spec fn fuel_used(v: RunView, amount: i64, now: u128) -> RunView {
    let after = RunView { fuel: (v.fuel - amount) as i64, ..v };
    if !fuel_low(v.fuel as int, v.starting_fuel) && fuel_low(after.fuel as int, v.starting_fuel) {
        with_message(after, Message::FuelLow, now)
    } else {
        after
    }
}

/// time passes; dropping below the threshold warns the player
pub open spec fn time_used(v: RunView, elapsed: u128, now: u128) -> RunView {
    let left = if v.time >= elapsed { (v.time - elapsed) as u128 } else { 0u128 };
    let after = RunView { time: left, ..v };
    if v.time >= LOW_TIME_MESSAGE_THRESHOLD && left < LOW_TIME_MESSAGE_THRESHOLD {
        with_message(after, Message::TimeLow, now)
    } else {
        after
    }
}

/// whether a tile lies within the reveal circle around `center`
pub open spec fn in_reveal(center: (i64, i64), r: i64, width: usize, p: (i64, i64)) -> bool {
    let dx = p.0 - center.0;
    let dy = p.1 - center.1;
    &&& max_int(center.0 - r, 0) <= p.0 <= min_int(center.0 + r, width as int)
    &&& max_int(center.1 - r, 0) <= p.1 <= center.1 + r
    &&& dx * dx + dy * dy <= r * r + r
}

/// the fogged tiles within the reveal circle come into view
pub open spec fn reveal_tiles(tiles: Map<(i64, i64), Tile>, center: (i64, i64), r: i64, width: usize) -> Map<
    (i64, i64),
    Tile,
> {
    Map::new(
        |p: (i64, i64)| tiles.contains_key(p),
        |p: (i64, i64)|
            if in_reveal(center, r, width, p) && tiles[p] is Fog {
                Tile::Visible(tiles[p].inner())
            } else {
                tiles[p]
            },
    )
}

/// the carried items go to the bank and the tank is refilled; the notice
/// says what was banked
pub open spec fn surface_refill(v: RunView, now: u128) -> RunView {
    let banked = worth(v.inventory);
    let after = RunView {
        bank: Seq::new(KIND_COUNT as nat, |i: int| (v.bank[i] + v.inventory[i]) as usize),
        inventory: Seq::new(KIND_COUNT as nat, |i: int| 0usize),
        fuel: v.starting_fuel as i64,
        ..v
    };
    with_message(after, Message::SurfaceRefill(banked as u64), now)
}

/// picking up a collectible at `pos`: fuel and time are used at once, a
/// treasure goes into the inventory if there is room; what is picked up
/// leaves a tunnel behind
pub open spec fn collect(v: RunView, pos: (i64, i64), kind: CollectibleKind, now: u128) -> RunView {
    let tunnel = v.tiles.insert(pos, Tile::Visible(TileKind::Tunnel));
    match kind {
        CollectibleKind::Fuel => with_message(
            RunView {
                fuel: min_int(v.fuel + FUEL_COLLECTIBLE_GAIN, v.starting_fuel as int) as i64,
                tiles: tunnel,
                ..v
            },
            Message::FuelAdded,
            now,
        ),
        CollectibleKind::Time => with_message(
            RunView { time: (v.time + TIME_COLLECTIBLE_GAIN) as u128, tiles: tunnel, ..v },
            Message::TimeAdded,
            now,
        ),
        _ => if item_count(v.inventory) < v.inventory_capacity {
            RunView {
                inventory: v.inventory.update(kind_index(kind), (v.inventory[kind_index(kind)] + 1) as usize),
                tiles: tunnel,
                ..v
            }
        } else {
            with_message(v, Message::InventoryFull, now)
        },
    }
}

/// The player tries to go to `pos`. With no fuel or time left nothing
/// happens, and rock cannot be entered. Ground is dug out (but not from
/// below), anything else is walked into, revealing the fog around. A
/// collectible in view there is picked up, and coming back up to the
/// surface banks the inventory and refills the tank.
pub open spec fn after_move_or_dig(v: RunView, pos: (i64, i64), now: u128) -> RunView {
    let tile = v.tiles.get(pos);
    if v.fuel <= 0 || v.time == 0 {
        v
    } else if tile is Some && tile->0.spec_is_rock() {
        v
    } else {
        let is_up = pos.1 == v.pos.1 - 1;
        let acted = if tile is Some && tile->0.spec_is_ground() {
            if !is_up {
                fuel_used(
                    RunView { tiles: v.tiles.insert(pos, Tile::Visible(TileKind::Tunnel)), ..v },
                    DIG_FUEL_COST,
                    now,
                )
            } else {
                v
            }
        } else {
            fuel_used(
                RunView {
                    pos,
                    max_depth: max_int(v.max_depth as int, depth_at(pos)) as i64,
                    tiles: reveal_tiles(v.tiles, pos, v.reveal_radius, v.width),
                    ..v
                },
                MOVE_FUEL_COST,
                now,
            )
        };
        let picked = match tile {
            Some(Tile::Visible(TileKind::Collectible { kind })) => collect(acted, pos, kind, now),
            _ => acted,
        };
        if depth_at(picked.pos) <= 0 && depth_at(v.pos) > 0 {
            surface_refill(picked, now)
        } else {
            picked
        }
    }
}

/// the stored move, if any, is made, and the clock starts
pub open spec fn after_input(v: RunView, now: u128) -> RunView {
    match v.next_input {
        Some(input) => after_move_or_dig(
            RunView { next_input: None, started: true, ..v },
            target_of(v, input),
            now,
        ),
        None => v,
    }
}

/// a notice up for longer than its display time comes down
pub open spec fn expire_message(v: RunView, now: u128) -> RunView {
    match v.message {
        Some((_, at)) => if now > at && now - at > MESSAGE_DISPLAY_TIME {
            RunView { message: None, ..v }
        } else {
            v
        },
        None => v,
    }
}

/// One tick: the stored move is made; once started, the clock runs down
/// by `elapsed` and stale notices come down.
pub open spec fn after_tick(v: RunView, elapsed: u128, now: u128) -> RunView {
    let moved = after_input(v, now);
    if moved.started {
        expire_message(time_used(moved, elapsed, now), now)
    } else {
        moved
    }
}

/// a run's state that its rules keep
pub open spec fn run_wf(v: RunView) -> bool {
    &&& v.width <= DEEPEST_ROW
    &&& -MAX_REVEAL_RADIUS <= v.reveal_radius <= MAX_REVEAL_RADIUS
    &&& v.starting_fuel <= MAX_TANK
    &&& -DIG_FUEL_COST < v.fuel <= v.starting_fuel
    &&& v.time <= MAX_TIME
    &&& -1 <= v.pos.0 <= v.width
    &&& SKY_HEIGHT - 1 <= v.pos.1
    &&& 0 <= v.max_depth
    &&& depth_at(v.pos) <= v.max_depth
    &&& v.inventory.len() == KIND_COUNT
    &&& v.bank.len() == KIND_COUNT
    &&& item_count(v.inventory) <= v.inventory_capacity
    &&& worth(v.bank) + worth(v.inventory) <= u64::MAX
}

/// there is room for one more tick: the player is not near the bottom of
/// the world, and one more treasure and one more time bonus still fit
pub open spec fn run_has_room(v: RunView) -> bool {
    &&& v.pos.1 < DEEPEST_ROW
    &&& worth(v.bank) + worth(v.inventory) + 1000 <= u64::MAX
    &&& forall|i: int| 0 <= i < KIND_COUNT ==> v.bank[i] + v.inventory[i] < usize::MAX
    &&& v.time + TIME_COLLECTIBLE_GAIN <= MAX_TIME
}

/// the run a loadout starts, at the surface in the middle of the world
pub open spec fn initial_run(width: usize, loadout: Loadout, now: u128) -> RunView {
    RunView {
        width,
        pos: ((width as int / 2) as i64, (SKY_HEIGHT - 1) as i64),
        max_depth: 0,
        reveal_radius: loadout.reveal_radius,
        starting_fuel: loadout.starting_fuel,
        inventory_capacity: loadout.inventory_capacity,
        next_input: None,
        started: false,
        tiles: Map::empty(),
        inventory: Seq::new(KIND_COUNT as nat, |i: int| 0usize),
        bank: Seq::new(KIND_COUNT as nat, |i: int| 0usize),
        fuel: loadout.starting_fuel as i64,
        time: (loadout.starting_time * SECOND) as u128,
        message: Some((Message::Start, now)),
    }
}

} // verus!

verus! {

broadcast use vstd::std_specs::hash::group_hash_axioms;

proof fn lemma_add_one_item(counts: Seq<usize>, k: int, n: int)
    requires
        0 <= k < KIND_COUNT,
        counts.len() == KIND_COUNT,
        counts[k] < usize::MAX,
        0 <= n <= KIND_COUNT,
    ensures
        items_in(counts.update(k, (counts[k] + 1) as usize), n) == items_in(counts, n) + (if k < n { 1int } else { 0 }),
        worth_of(counts.update(k, (counts[k] + 1) as usize), n) == worth_of(counts, n) + (if k < n {
            kind_at(k).spec_value() as int
        } else {
            0
        }),
    decreases n,
{
    if n > 0 {
        lemma_add_one_item(counts, k, n - 1);
        let up = counts.update(k, (counts[k] + 1) as usize);
        if n - 1 == k {
            assert(up[n - 1] * kind_at(n - 1).spec_value() == counts[n - 1] * kind_at(n - 1).spec_value()
                + kind_at(n - 1).spec_value()) by (nonlinear_arith)
                requires
                    up[n - 1] == counts[n - 1] + 1,
            ;
        }
    }
}

proof fn lemma_merge_counts(a: Seq<usize>, b: Seq<usize>, n: int)
    requires
        a.len() == KIND_COUNT,
        b.len() == KIND_COUNT,
        forall|i: int| 0 <= i < KIND_COUNT ==> a[i] + b[i] <= usize::MAX,
        0 <= n <= KIND_COUNT,
    ensures
        items_in(Seq::new(KIND_COUNT as nat, |i: int| (a[i] + b[i]) as usize), n) == items_in(a, n) + items_in(b, n),
        worth_of(Seq::new(KIND_COUNT as nat, |i: int| (a[i] + b[i]) as usize), n) == worth_of(a, n) + worth_of(b, n),
    decreases n,
{
    if n > 0 {
        lemma_merge_counts(a, b, n - 1);
        let m = Seq::new(KIND_COUNT as nat, |i: int| (a[i] + b[i]) as usize);
        let v = kind_at(n - 1).spec_value() as int;
        assert(m[n - 1] * v == a[n - 1] * v + b[n - 1] * v) by (nonlinear_arith)
            requires
                m[n - 1] == a[n - 1] + b[n - 1],
        ;
    }
}

proof fn lemma_no_items(n: int)
    requires
        0 <= n <= KIND_COUNT,
    ensures
        items_in(Seq::new(KIND_COUNT as nat, |i: int| 0usize), n) == 0,
        worth_of(Seq::new(KIND_COUNT as nat, |i: int| 0usize), n) == 0,
    decreases n,
{
    if n > 0 {
        lemma_no_items(n - 1);
        let z = Seq::new(KIND_COUNT as nat, |i: int| 0usize);
        assert(z[n - 1] == 0);
        assert(z[n - 1] * kind_at(n - 1).spec_value() == 0) by (nonlinear_arith)
            requires
                z[n - 1] == 0,
        ;
    }
}

/// a treasure-depths run
pub struct Game {
    width: usize,
    pos: (i64, i64),
    max_depth: i64,
    reveal_radius: i64,
    starting_fuel: u64,
    inventory_capacity: usize,
    next_input: Option<Input>,
    started: bool,
    tiles: HashMap<i128, Tile>,
    inventory: Vec<usize>,
    bank: Vec<usize>,
    fuel: i64,
    time: u128,
    message: Option<(Message, u128)>,
}

impl View for Game {
    type V = RunView;

    closed spec fn view(&self) -> RunView {
        RunView {
            width: self.width,
            pos: self.pos,
            max_depth: self.max_depth,
            reveal_radius: self.reveal_radius,
            starting_fuel: self.starting_fuel,
            inventory_capacity: self.inventory_capacity,
            next_input: self.next_input,
            started: self.started,
            tiles: tiles_by_pos(self.tiles@),
            inventory: self.inventory@,
            bank: self.bank@,
            fuel: self.fuel,
            time: self.time,
            message: self.message,
        }
    }
}

impl Game {
    /// the state every run keeps
    pub open spec fn wf(&self) -> bool {
        run_wf(self@)
    }

    /// A run with the given loadout, on a world `width` tiles wide, started
    /// at time `now` (in nanoseconds on the caller's clock). The world may be
    /// at most `DEEPEST_ROW` tiles wide, and the reveal radius and the tank
    /// at most as large as their checks stay exact for.
    pub fn new(width: usize, loadout: Loadout, now: u128) -> (g: Self)
        requires
            width <= DEEPEST_ROW,
            -MAX_REVEAL_RADIUS <= loadout.reveal_radius <= MAX_REVEAL_RADIUS,
            loadout.starting_fuel <= MAX_TANK,
        ensures
            g@ == initial_run(width, loadout, now),
            g.wf(),
    {
        let inventory = vec![0usize, 0, 0, 0, 0, 0];
        let bank = vec![0usize, 0, 0, 0, 0, 0];
        let tiles: HashMap<i128, Tile> = HashMap::new();
        assert(inventory@ =~= Seq::new(KIND_COUNT as nat, |i: int| 0usize));
        assert(bank@ =~= Seq::new(KIND_COUNT as nat, |i: int| 0usize));
        assert(tiles_by_pos(tiles@) =~= Map::empty());
        proof {
            lemma_no_items(KIND_COUNT as int);
        }
        assert(loadout.starting_time * SECOND <= MAX_TIME) by (nonlinear_arith)
            requires
                loadout.starting_time <= u64::MAX,
        ;
        Game {
            width,
            pos: (width as i64 / 2, SKY_HEIGHT - 1),
            max_depth: 0,
            reveal_radius: loadout.reveal_radius,
            starting_fuel: loadout.starting_fuel,
            inventory_capacity: loadout.inventory_capacity,
            next_input: None,
            started: false,
            tiles,
            inventory,
            bank,
            fuel: loadout.starting_fuel as i64,
            time: loadout.starting_time as u128 * SECOND,
            message: Some((Message::Start, now)),
        }
    }

    /// stores the move to make on the next tick
    pub fn handle(&mut self, input: Input)
        requires
            old(self).wf(),
        ensures
            final(self)@ == (RunView { next_input: Some(input), ..old(self)@ }),
            final(self).wf(),
    {
        self.next_input = Some(input);
    }

    /// the tile at `pos`, if it has been generated
    pub fn tile(&self, pos: (i64, i64)) -> (r: Option<Tile>)
        ensures
            r == self@.tiles.get(pos),
    {
        match self.tiles.get(&tile_key(pos)) {
            Some(t) => Some(*t),
            None => None,
        }
    }

    fn put(&mut self, pos: (i64, i64), t: Tile)
        ensures
            final(self)@ == (RunView { tiles: old(self)@.tiles.insert(pos, t), ..old(self)@ }),
    {
        let k = tile_key(pos);
        self.tiles.insert(k, t);
        proof {
            lemma_tiles_insert(old(self).tiles@, pos, t);
        }
    }

    /// The tile at `pos`; a tile not generated before is `fresh` from now on.
    pub fn get_tile(&mut self, pos: (i64, i64), fresh: Tile) -> (r: Tile)
        requires
            old(self).wf(),
        ensures
            old(self)@.tiles.contains_key(pos) ==> r == old(self)@.tiles[pos] && final(self)@ == old(self)@,
            !old(self)@.tiles.contains_key(pos) ==> r == fresh && final(self)@ == (RunView {
                tiles: old(self)@.tiles.insert(pos, fresh),
                ..old(self)@
            }),
            final(self).wf(),
    {
        match self.tile(pos) {
            Some(t) => t,
            None => {
                self.put(pos, fresh);
                fresh
            },
        }
    }

    pub fn pos(&self) -> (r: (i64, i64))
        ensures
            r == self@.pos,
    {
        self.pos
    }

    /// rows below the surface row the player is at
    pub fn current_depth(&self) -> (r: i64)
        requires
            self.wf(),
        ensures
            r == depth_at(self@.pos),
    {
        self.pos.1 - SKY_HEIGHT + 1
    }

    /// the deepest depth reached this run
    pub fn max_depth(&self) -> (r: i64)
        ensures
            r == self@.max_depth,
    {
        self.max_depth
    }

    pub fn reveal_radius(&self) -> (r: i64)
        ensures
            r == self@.reveal_radius,
    {
        self.reveal_radius
    }

    pub fn inventory_capacity(&self) -> (r: usize)
        ensures
            r == self@.inventory_capacity,
    {
        self.inventory_capacity
    }

    /// fuel left; it can drop a little below zero on the last dig
    pub fn fuel(&self) -> (r: i64)
        ensures
            r == self@.fuel,
    {
        self.fuel
    }

    /// fuel in a full tank
    pub fn starting_fuel(&self) -> (r: u64)
        ensures
            r == self@.starting_fuel,
    {
        self.starting_fuel
    }

    /// time left, in nanoseconds
    pub fn remaining_time(&self) -> (r: u128)
        ensures
            r == self@.time,
    {
        self.time
    }

    /// the run is over once fuel or time runs out
    pub fn is_over(&self) -> (r: bool)
        ensures
            r == (self@.fuel <= 0 || self@.time == 0),
    {
        self.fuel <= 0 || self.time == 0
    }

    /// how many of `kind` the player carries
    pub fn inventory_count(&self, kind: CollectibleKind) -> (r: usize)
        requires
            self.wf(),
        ensures
            r == self@.inventory[kind_index(kind)],
    {
        self.inventory[slot(kind)]
    }

    /// how many items the player carries
    pub fn inventory_size(&self) -> (r: usize)
        requires
            self.wf(),
        ensures
            r == item_count(self@.inventory),
    {
        let mut total: usize = 0;
        let mut i: usize = 0;
        while i < KIND_COUNT
            invariant
                self.wf(),
                0 <= i <= KIND_COUNT,
                total == items_in(self@.inventory, i as int),
            decreases KIND_COUNT - i,
        {
            proof {
                lemma_prefix_sums_grow(self@.inventory, (i + 1) as int, KIND_COUNT as int);
            }
            total = total + self.inventory[i];
            i = i + 1;
        }
        total
    }

    /// what the banked treasure is worth in party points
    pub fn bank_value(&self) -> (r: u64)
        requires
            self.wf(),
        ensures
            r == worth(self@.bank),
    {
        let mut total: u64 = 0;
        let mut i: usize = 0;
        proof {
            lemma_prefix_sums_nonneg(self@.inventory, KIND_COUNT as int);
        }
        while i < KIND_COUNT
            invariant
                self.wf(),
                0 <= i <= KIND_COUNT,
                total == worth_of(self@.bank, i as int),
                worth(self@.bank) <= u64::MAX,
            decreases KIND_COUNT - i,
        {
            proof {
                lemma_prefix_sums_grow(self@.bank, (i + 1) as int, KIND_COUNT as int);
            }
            let v = kind_of_slot(i).value();
            let c = self.bank[i] as u64;
            assert(c * v <= worth_of(self@.bank, (i + 1) as int) - worth_of(self@.bank, i as int));
            total = total + c * v;
            i = i + 1;
        }
        total
    }

    /// the notice on show, as displayed
    pub fn message(&self) -> (r: Option<String>)
        ensures
            match self@.message {
                Some((m, _)) => r is Some && r->0@ == m.spec_text(),
                None => r is None,
            },
    {
        match &self.message {
            Some((m, _)) => Some(m.text()),
            None => None,
        }
    }
}

} // verus!

verus! {

/// the tiles revealed so far while scanning the reveal circle row by row:
/// every row above `y`, and row `y` left of `x`
spec fn revealed_before(
    tiles: Map<(i64, i64), Tile>,
    center: (i64, i64),
    r: i64,
    width: usize,
    y: int,
    x: int,
) -> Map<(i64, i64), Tile> {
    Map::new(
        |p: (i64, i64)| tiles.contains_key(p),
        |p: (i64, i64)|
            if in_reveal(center, r, width, p) && (p.1 < y || (p.1 == y && p.0 < x)) && tiles[p] is Fog {
                Tile::Visible(tiles[p].inner())
            } else {
                tiles[p]
            },
    )
}

impl Game {
    /// puts up a notice, unless the same one is already up
    fn post_message(&mut self, m: Message, now: u128)
        ensures
            final(self)@ == with_message(old(self)@, m, now),
    {
        if let Some((shown, _)) = &self.message {
            if *shown == m {
                return;
            }
        }
        self.message = Some((m, now));
    }

    fn subtract_fuel(&mut self, amount: i64, now: u128)
        requires
            run_wf(old(self)@),
            old(self)@.fuel > 0,
            amount == MOVE_FUEL_COST || amount == DIG_FUEL_COST,
        ensures
            final(self)@ == fuel_used(old(self)@, amount, now),
            run_wf(final(self)@),
    {
        let start = self.starting_fuel as i64;
        let was_low = 5 * self.fuel < start;
        self.fuel = self.fuel - amount;
        if !was_low && 5 * self.fuel < start {
            self.post_message(Message::FuelLow, now);
        }
    }

    fn subtract_time(&mut self, elapsed: u128, now: u128)
        requires
            run_wf(old(self)@),
        ensures
            final(self)@ == time_used(old(self)@, elapsed, now),
            run_wf(final(self)@),
    {
        let prev = self.time;
        self.time = if prev >= elapsed {
            prev - elapsed
        } else {
            0
        };
        if prev >= LOW_TIME_MESSAGE_THRESHOLD && self.time < LOW_TIME_MESSAGE_THRESHOLD {
            self.post_message(Message::TimeLow, now);
        }
    }

    /// max fuel is capped at the initial fuel capacity
    fn add_fuel(&mut self, now: u128)
        requires
            run_wf(old(self)@),
        ensures
            final(self)@ == with_message(
                RunView {
                    fuel: min_int(old(self)@.fuel + FUEL_COLLECTIBLE_GAIN, old(self)@.starting_fuel as int) as i64,
                    ..old(self)@
                },
                Message::FuelAdded,
                now,
            ),
            run_wf(final(self)@),
    {
        let start = self.starting_fuel as i64;
        let f = self.fuel + FUEL_COLLECTIBLE_GAIN;
        self.fuel = if f < start {
            f
        } else {
            start
        };
        self.post_message(Message::FuelAdded, now);
    }

    fn add_time(&mut self, now: u128)
        requires
            run_wf(old(self)@),
            old(self)@.time + TIME_COLLECTIBLE_GAIN <= MAX_TIME,
        ensures
            final(self)@ == with_message(
                RunView { time: (old(self)@.time + TIME_COLLECTIBLE_GAIN) as u128, ..old(self)@ },
                Message::TimeAdded,
                now,
            ),
            run_wf(final(self)@),
    {
        self.time = self.time + TIME_COLLECTIBLE_GAIN;
        self.post_message(Message::TimeAdded, now);
    }

    fn items_carried(&self) -> (r: usize)
        requires
            run_wf(self@),
        ensures
            r == item_count(self@.inventory),
    {
        let mut total: usize = 0;
        let mut i: usize = 0;
        while i < KIND_COUNT
            invariant
                run_wf(self@),
                0 <= i <= KIND_COUNT,
                total == items_in(self@.inventory, i as int),
            decreases KIND_COUNT - i,
        {
            proof {
                lemma_prefix_sums_grow(self@.inventory, (i + 1) as int, KIND_COUNT as int);
            }
            total = total + self.inventory[i];
            i = i + 1;
        }
        total
    }

    /// returns whether the item was collected (it is not when the
    /// inventory is full)
    fn add_to_inventory(&mut self, kind: CollectibleKind, now: u128) -> (collected: bool)
        requires
            run_wf(old(self)@),
            worth(old(self)@.bank) + worth(old(self)@.inventory) + 1000 <= u64::MAX,
        ensures
            collected == (item_count(old(self)@.inventory) < old(self)@.inventory_capacity),
            collected ==> final(self)@ == (RunView {
                inventory: old(self)@.inventory.update(
                    kind_index(kind),
                    (old(self)@.inventory[kind_index(kind)] + 1) as usize,
                ),
                ..old(self)@
            }),
            !collected ==> final(self)@ == with_message(old(self)@, Message::InventoryFull, now),
            run_wf(final(self)@),
    {
        if self.items_carried() < self.inventory_capacity {
            let i = slot(kind);
            proof {
                lemma_prefix_sums_nonneg(self@.inventory, i as int);
                lemma_prefix_sums_grow(self@.inventory, i as int + 1, KIND_COUNT as int);
                lemma_add_one_item(self@.inventory, i as int, KIND_COUNT as int);
                assert(kind_at(i as int) == kind);
                assert(kind.spec_value() <= 1000);
            }
            let c = self.inventory[i] + 1;
            self.inventory.set(i, c);
            true
        } else {
            self.post_message(Message::InventoryFull, now);
            false
        }
    }

    /// moves the carried items to the bank; returns what they are worth
    fn store_inventory(&mut self) -> (amount: u64)
        requires
            run_wf(old(self)@),
            forall|i: int| 0 <= i < KIND_COUNT ==> old(self)@.bank[i] + old(self)@.inventory[i] <= usize::MAX,
        ensures
            amount == worth(old(self)@.inventory),
            final(self)@ == (RunView {
                bank: Seq::new(
                    KIND_COUNT as nat,
                    |i: int| (old(self)@.bank[i] + old(self)@.inventory[i]) as usize,
                ),
                inventory: Seq::new(KIND_COUNT as nat, |i: int| 0usize),
                ..old(self)@
            }),
    {
        let ghost b0 = self@.bank;
        let ghost inv = self@.inventory;
        proof {
            lemma_prefix_sums_nonneg(b0, KIND_COUNT as int);
        }
        let mut total: u64 = 0;
        let mut i: usize = 0;
        while i < KIND_COUNT
            invariant
                0 <= i <= KIND_COUNT,
                self@ == (RunView { bank: self@.bank, ..old(self)@ }),
                self.inventory@ == inv,
                self.bank@ == Seq::new(
                    KIND_COUNT as nat,
                    |j: int| if j < i { (b0[j] + inv[j]) as usize } else { b0[j] },
                ),
                inv.len() == KIND_COUNT,
                b0.len() == KIND_COUNT,
                forall|j: int| 0 <= j < KIND_COUNT ==> b0[j] + inv[j] <= usize::MAX,
                total == worth_of(inv, i as int),
                worth(inv) <= u64::MAX,
            decreases KIND_COUNT - i,
        {
            proof {
                lemma_prefix_sums_grow(inv, (i + 1) as int, KIND_COUNT as int);
            }
            let n = self.inventory[i];
            let b = self.bank[i];
            let v = kind_of_slot(i).value();
            assert((n as u64) * v == worth_of(inv, (i + 1) as int) - worth_of(inv, i as int));
            total = total + (n as u64) * v;
            self.bank.set(i, b + n);
            i = i + 1;
        }
        self.inventory = vec![0usize, 0, 0, 0, 0, 0];
        assert(self.bank@ =~= Seq::new(KIND_COUNT as nat, |i: int| (b0[i] + inv[i]) as usize));
        assert(self.inventory@ =~= Seq::new(KIND_COUNT as nat, |i: int| 0usize));
        total
    }

    fn surface_refill(&mut self, now: u128)
        requires
            run_wf(old(self)@),
            forall|i: int| 0 <= i < KIND_COUNT ==> old(self)@.bank[i] + old(self)@.inventory[i] <= usize::MAX,
        ensures
            final(self)@ == surface_refill(old(self)@, now),
            run_wf(final(self)@),
    {
        proof {
            lemma_merge_counts(self@.bank, self@.inventory, KIND_COUNT as int);
            lemma_no_items(KIND_COUNT as int);
            lemma_prefix_sums_nonneg(self@.inventory, KIND_COUNT as int);
            lemma_prefix_sums_nonneg(self@.bank, KIND_COUNT as int);
        }
        let amount = self.store_inventory();
        self.fuel = self.starting_fuel as i64;
        self.post_message(Message::SurfaceRefill(amount), now);
    }
}

} // verus!

verus! {

impl Game {
    /// ensures that all tiles within a radius of the player are revealed
    fn reveal_fog(&mut self)
        requires
            run_wf(old(self)@),
            old(self)@.pos.1 <= DEEPEST_ROW,
        ensures
            final(self)@ == (RunView {
                tiles: reveal_tiles(
                    old(self)@.tiles,
                    old(self)@.pos,
                    old(self)@.reveal_radius,
                    old(self)@.width,
                ),
                ..old(self)@
            }),
    {
        let ghost t0 = self@.tiles;
        let ghost center = self@.pos;
        let px = self.pos.0;
        let py = self.pos.1;
        let r = self.reveal_radius;
        let ghost width = self.width;
        let w = self.width as i64;
        // scan the square within the radius of the player
        let x_min = if px - r > 0 {
            px - r
        } else {
            0
        };
        let x_max = if px + r < w {
            px + r
        } else {
            w
        };
        let y_min = if py - r > 0 {
            py - r
        } else {
            0
        };
        let y_max = py + r;
        assert(0 <= r * r <= 0x100_0000_0000) by (nonlinear_arith)
            requires
                -0x10_0000 <= r <= 0x10_0000,
        ;
        let rr = r * r + r;
        assert(revealed_before(t0, center, r, width, y_min as int, x_min as int) =~= t0);
        let mut y = y_min;
        while y <= y_max
            invariant
                center == (px, py),
                -MAX_REVEAL_RADIUS <= r <= MAX_REVEAL_RADIUS,
                -1 <= px <= DEEPEST_ROW,
                SKY_HEIGHT - 1 <= py <= DEEPEST_ROW,
                width <= DEEPEST_ROW,
                w == width,
                x_min == max_int(px - r, 0),
                x_max == min_int(px + r, w as int),
                y_min == max_int(py - r, 0),
                y_max == py + r,
                rr == r * r + r,
                y_min <= y <= y_max + 1 || (y == y_min && y_min > y_max),
                self@ == (RunView { tiles: revealed_before(t0, center, r, width, y as int, x_min as int), ..old(self)@ }),
            decreases y_max + 1 - y,
        {
            let mut x = x_min;
            while x <= x_max
                invariant
                    center == (px, py),
                    -MAX_REVEAL_RADIUS <= r <= MAX_REVEAL_RADIUS,
                    -1 <= px <= DEEPEST_ROW,
                    SKY_HEIGHT - 1 <= py <= DEEPEST_ROW,
                    width <= DEEPEST_ROW,
                    w == width,
                    x_min == max_int(px - r, 0),
                    x_max == min_int(px + r, w as int),
                    y_min == max_int(py - r, 0),
                    y_max == py + r,
                    rr == r * r + r,
                    y_min <= y <= y_max,
                    x_min <= x,
                    x <= x_max + 1 || x == x_min,
                    self@ == (RunView { tiles: revealed_before(t0, center, r, width, y as int, x as int), ..old(self)@ }),
                decreases x_max + 1 - x,
            {
                let dx = x - px;
                let dy = y - py;
                assert(dx * dx <= r * r) by (nonlinear_arith)
                    requires
                        -r <= dx <= r,
                ;
                assert(dy * dy <= r * r) by (nonlinear_arith)
                    requires
                        -r <= dy <= r,
                ;
                assert(0 <= r * r <= 0x100_0000_0000) by (nonlinear_arith)
                    requires
                        -0x10_0000 <= r <= 0x10_0000,
                ;
                assert(0 <= dx * dx && 0 <= dy * dy) by (nonlinear_arith);
                let ghost before = self@.tiles;
                // the circle within the square, slightly widened for a
                // smoother edge
                if dx * dx + dy * dy <= rr {
                    match self.tile((x, y)) {
                        Some(Tile::Fog(inner)) => {
                            self.put((x, y), Tile::Visible(inner));
                            assert(self@.tiles =~= revealed_before(t0, center, r, width, y as int, x + 1));
                        },
                        _ => {
                            assert(self@.tiles =~= revealed_before(t0, center, r, width, y as int, x + 1));
                        },
                    }
                } else {
                    assert(self@.tiles =~= revealed_before(t0, center, r, width, y as int, x + 1));
                }
                x = x + 1;
            }
            assert(revealed_before(t0, center, r, width, y as int, x as int) =~= revealed_before(
                t0,
                center,
                r,
                width,
                y + 1,
                x_min as int,
            ));
            y = y + 1;
        }
        assert(revealed_before(t0, center, r, width, y as int, x_min as int) =~= reveal_tiles(t0, center, r, width));
    }
}

} // verus!

verus! {

impl Game {
    /// moves the player into a position if they've already dug it out,
    /// or digs it, revealing a collectible if there is one
    fn move_or_dig(&mut self, pos: (i64, i64), now: u128)
        requires
            run_wf(old(self)@),
            run_has_room(old(self)@),
            -1 <= pos.0 <= old(self)@.width,
            SKY_HEIGHT - 1 <= pos.1 <= old(self)@.pos.1 + 1,
        ensures
            final(self)@ == after_move_or_dig(old(self)@, pos, now),
            run_wf(final(self)@),
    {
        let ghost v = self@;
        if self.fuel <= 0 || self.time == 0 {
            return;
        }
        // store current depth for later comparison
        let prev_depth = self.pos.1 - SKY_HEIGHT + 1;

        let tile = self.tile(pos);

        // if the tile is a rock, don't move or do anything (including consuming fuel)
        if let Some(t) = tile {
            if t.is_rock() {
                return;
            }
        }

        let is_up = pos.1 == self.pos.1 - 1;
        let ground = match tile {
            Some(t) => t.is_ground(),
            None => false,
        };

        // if the tile is a ground tile, dig it (ie. replace it with a tunnel)
        //   *as long as it's not an upwards move*
        // otherwise move into the tile
        if ground {
            if !is_up {
                self.put(pos, Tile::Visible(TileKind::Tunnel));
                self.subtract_fuel(DIG_FUEL_COST, now);
            }
        } else {
            self.pos = pos;
            let depth = pos.1 - SKY_HEIGHT + 1;
            if depth > self.max_depth {
                self.max_depth = depth;
            }
            self.reveal_fog();
            self.subtract_fuel(MOVE_FUEL_COST, now);
        }
        let ghost acted = self@;
        assert(self@.bank == v.bank && self@.inventory == v.inventory && self@.time == v.time);

        // collect a collectible if there's one where we just moved
        if let Some(Tile::Visible(TileKind::Collectible { kind })) = tile {
            let collected = match kind {
                CollectibleKind::Fuel => {
                    self.add_fuel(now);
                    true
                },
                CollectibleKind::Time => {
                    self.add_time(now);
                    true
                },
                _ => self.add_to_inventory(kind, now),
            };
            if collected {
                self.put(pos, Tile::Visible(TileKind::Tunnel));
            }
            assert(self@ == collect(acted, pos, kind, now));
        }
        proof {
            let picked = self@;
            assert forall|i: int| 0 <= i < KIND_COUNT implies picked.bank[i] + picked.inventory[i] <= usize::MAX by {
                assert(v.bank[i] + v.inventory[i] < usize::MAX);
            }
        }

        // refill if we just got to the surface
        if self.pos.1 - SKY_HEIGHT + 1 <= 0 && prev_depth > 0 {
            self.surface_refill(now);
        }
    }

    /// makes the stored move, if any, and starts the clock
    fn handle_stored_input(&mut self, now: u128)
        requires
            run_wf(old(self)@),
            run_has_room(old(self)@),
        ensures
            final(self)@ == after_input(old(self)@, now),
            run_wf(final(self)@),
    {
        if let Some(input) = self.next_input {
            self.next_input = None;
            self.started = true;
            let (x, y) = self.pos;
            let pos = match input {
                Input::Up => (x, if y - 1 > SKY_HEIGHT - 1 { y - 1 } else { SKY_HEIGHT - 1 }),
                Input::Down => (x, y + 1),
                Input::Right => (if x + 1 < self.width as i64 - 1 { x + 1 } else { self.width as i64 - 1 }, y),
                Input::Left => (if x - 1 > 0 { x - 1 } else { 0 }, y),
            };
            self.move_or_dig(pos, now);
        }
    }

    /// whether the run has room for one more tick (see `run_has_room`)
    pub fn has_room(&self) -> (r: bool)
        requires
            self.wf(),
        ensures
            r == run_has_room(self@),
    {
        if self.pos.1 >= DEEPEST_ROW || self.time > MAX_TIME - TIME_COLLECTIBLE_GAIN {
            return false;
        }
        let ghost b = self@.bank;
        let ghost inv = self@.inventory;
        proof {
            lemma_prefix_sums_nonneg(b, KIND_COUNT as int);
            lemma_prefix_sums_nonneg(inv, KIND_COUNT as int);
        }
        let mut total: u64 = 0;
        let mut fits = true;
        let mut i: usize = 0;
        while i < KIND_COUNT
            invariant
                self.wf(),
                b == self@.bank,
                inv == self@.inventory,
                0 <= i <= KIND_COUNT,
                total == worth_of(b, i as int) + worth_of(inv, i as int),
                fits == (forall|j: int| 0 <= j < i ==> b[j] + inv[j] < usize::MAX),
            decreases KIND_COUNT - i,
        {
            proof {
                lemma_prefix_sums_grow(b, (i + 1) as int, KIND_COUNT as int);
                lemma_prefix_sums_grow(inv, (i + 1) as int, KIND_COUNT as int);
                lemma_prefix_sums_nonneg(b, i as int);
                lemma_prefix_sums_nonneg(inv, i as int);
            }
            let v = kind_of_slot(i).value();
            let nb = self.bank[i];
            let ni = self.inventory[i];
            assert((nb as u64) * v == worth_of(b, (i + 1) as int) - worth_of(b, i as int));
            assert((ni as u64) * v == worth_of(inv, (i + 1) as int) - worth_of(inv, i as int));
            total = total + (nb as u64) * v + (ni as u64) * v;
            if nb >= usize::MAX - ni {
                fits = false;
            }
            i = i + 1;
        }
        fits && total <= u64::MAX - 1000
    }

    /// One tick of the run at time `now` (nanoseconds on the caller's
    /// clock), `elapsed` nanoseconds after the last: the stored move is made,
    /// and once started the clock runs down and stale notices come down.
    pub fn tick(&mut self, elapsed: u128, now: u128)
        requires
            old(self).wf(),
            run_has_room(old(self)@),
        ensures
            final(self)@ == after_tick(old(self)@, elapsed, now),
            final(self).wf(),
    {
        self.handle_stored_input(now);
        if self.started {
            self.subtract_time(elapsed, now);
            // clear a message if there is one and it's been posted long enough
            if let Some((_, at)) = self.message {
                if now > at && now - at > MESSAGE_DISPLAY_TIME {
                    self.message = None;
                }
            }
        }
    }
}

} // verus!

verus! {

proof fn lemma_collect_keeps_progress(v: RunView, pos: (i64, i64), kind: CollectibleKind, now: u128)
    requires
        v.inventory.len() == KIND_COUNT,
        item_count(v.inventory) <= v.inventory_capacity,
        forall|i: int| 0 <= i < KIND_COUNT ==> v.inventory[i] < usize::MAX,
    ensures
        ({
            let c = collect(v, pos, kind, now);
            &&& c.pos == v.pos
            &&& c.max_depth == v.max_depth
            &&& c.bank == v.bank
            &&& c.inventory.len() == KIND_COUNT
            &&& worth(c.inventory) >= worth(v.inventory)
            &&& worth(c.inventory) <= worth(v.inventory) + 1000
            &&& forall|i: int| 0 <= i < KIND_COUNT ==> c.inventory[i] >= v.inventory[i] && c.inventory[i]
                <= v.inventory[i] + 1
            &&& c.starting_fuel == v.starting_fuel
        }),
{
    let k = kind_index(kind);
    if kind != CollectibleKind::Fuel && kind != CollectibleKind::Time && item_count(v.inventory)
        < v.inventory_capacity {
        lemma_prefix_sums_nonneg(v.inventory, k);
        lemma_prefix_sums_grow(v.inventory, k + 1, KIND_COUNT as int);
        lemma_add_one_item(v.inventory, k, KIND_COUNT as int);
        assert(kind_at(k) == kind);
    }
}

/// Over a tick, the deepest depth reached never goes down, nothing leaves
/// the bank, and the treasure held, banked or carried, never loses worth.
pub proof fn law_tick_keeps_progress(v: RunView, elapsed: u128, now: u128)
    requires
        run_wf(v),
        run_has_room(v),
    ensures
        ({
            let t = after_tick(v, elapsed, now);
            &&& t.max_depth >= v.max_depth
            &&& forall|i: int| 0 <= i < KIND_COUNT ==> t.bank[i] >= v.bank[i]
            &&& worth(t.bank) + worth(t.inventory) >= worth(v.bank) + worth(v.inventory)
        }),
{
    let s = RunView { next_input: None, started: true, ..v };
    if let Some(input) = v.next_input {
        let pos = target_of(v, input);
        let tile = s.tiles.get(pos);
        if !(s.fuel <= 0 || s.time == 0) && !(tile is Some && tile->0.spec_is_rock()) {
            let is_up = pos.1 == s.pos.1 - 1;
            let acted = if tile is Some && tile->0.spec_is_ground() {
                if !is_up {
                    fuel_used(
                        RunView { tiles: s.tiles.insert(pos, Tile::Visible(TileKind::Tunnel)), ..s },
                        DIG_FUEL_COST,
                        now,
                    )
                } else {
                    s
                }
            } else {
                fuel_used(
                    RunView {
                        pos,
                        max_depth: max_int(s.max_depth as int, depth_at(pos)) as i64,
                        tiles: reveal_tiles(s.tiles, pos, s.reveal_radius, s.width),
                        ..s
                    },
                    MOVE_FUEL_COST,
                    now,
                )
            };
            let picked = match tile {
                Some(Tile::Visible(TileKind::Collectible { kind })) => collect(acted, pos, kind, now),
                _ => acted,
            };
            if let Some(Tile::Visible(TileKind::Collectible { kind })) = tile {
                assert forall|i: int| 0 <= i < KIND_COUNT implies acted.inventory[i] < usize::MAX by {
                    assert(v.bank[i] + v.inventory[i] < usize::MAX);
                }
                lemma_collect_keeps_progress(acted, pos, kind, now);
            }
            if depth_at(picked.pos) <= 0 && depth_at(s.pos) > 0 {
                assert forall|i: int| 0 <= i < KIND_COUNT implies picked.bank[i] + picked.inventory[i]
                    <= usize::MAX by {
                    assert(v.bank[i] + v.inventory[i] < usize::MAX);
                }
                lemma_merge_counts(picked.bank, picked.inventory, KIND_COUNT as int);
                lemma_no_items(KIND_COUNT as int);
                lemma_prefix_sums_nonneg(picked.inventory, KIND_COUNT as int);
            }
        }
    }
}

/// Once fuel or time has run out, nothing moves any more: the player, the
/// world, the tank, the inventory and the bank stay as they are.
pub proof fn law_over_run_stays_put(v: RunView, elapsed: u128, now: u128)
    requires
        v.fuel <= 0 || v.time == 0,
    ensures
        ({
            let t = after_tick(v, elapsed, now);
            &&& t.pos == v.pos
            &&& t.tiles == v.tiles
            &&& t.fuel == v.fuel
            &&& t.inventory == v.inventory
            &&& t.bank == v.bank
            &&& t.fuel <= 0 || t.time == 0
        }),
{
}

/// Rock cannot be entered or dug: trying leaves the run as it was.
pub proof fn law_rock_blocks(v: RunView, pos: (i64, i64), now: u128)
    requires
        v.tiles.contains_key(pos),
        v.tiles[pos].spec_is_rock(),
    ensures
        after_move_or_dig(v, pos, now) == v,
{
}

/// Climbing back to the surface from below banks everything carried and
/// fills the tank.
pub proof fn law_surfacing_banks_and_refuels(v: RunView, pos: (i64, i64), now: u128)
    requires
        run_wf(v),
        run_has_room(v),
        depth_at(v.pos) > 0,
        depth_at(after_move_or_dig(v, pos, now).pos) <= 0,
    ensures
        ({
            let t = after_move_or_dig(v, pos, now);
            &&& item_count(t.inventory) == 0
            &&& t.fuel == t.starting_fuel
        }),
{
    lemma_no_items(KIND_COUNT as int);
}

} // verus!
