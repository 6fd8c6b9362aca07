//! Treasure Depths: dig for treasure and climb back out before fuel or time
//! runs out.

pub mod game;
pub mod menu;
pub mod render;
pub mod store;

use vstd::prelude::*;

use super::{best_of, GameObject, Key};
use game::Input;
use crate::text::{decimal, decimal_digits};
use store::{tiers_after_down, tiers_after_up, Store, UPGRADE_COUNT};

verus! {

/// A SteamWorld-Dig-style game: spend party points on upgrades, then dig
/// for treasure and climb back out before your fuel or time runs out.
pub struct TreasureDepths;

/// what is kept between plays
#[derive(Debug, Default)]
pub struct State {
    /// the biggest banked haul so far
    best_haul: u64,
}

impl State {
    pub closed spec fn spec_best_haul(&self) -> u64 {
        self.best_haul
    }

    pub fn best_haul(&self) -> (r: u64)
        ensures
            r == self.spec_best_haul(),
    {
        self.best_haul
    }

    /// records a finished run's banked haul
    pub fn record_haul(&mut self, points: u64)
        ensures
            final(self).spec_best_haul() == best_of(old(self).spec_best_haul(), points),
    {
        if points > self.best_haul {
            self.best_haul = points;
        }
    }
}

/// how long a fade lasts, in milliseconds
pub const FADE_MS: u64 = 500;

/// how often a running game ticks, in milliseconds
pub const TICK_MS: u64 = 50;

/// how long the results screen ignores input, so buffered keys can't skip
/// it, in milliseconds
pub const GAME_OVER_DELAY_MS: u64 = 750;

/// the screens a visit to treasure depths goes through
#[derive(Debug, Clone, Copy, PartialEq, Eq, Structural)]
pub enum Scene {
    FadeIn,
    Welcome,
    Store,
    /// a run in progress, paused while `running` is false
    Playing { running: bool },
    GameOver,
    FadeOut,
    Done,
}

/// what has to happen besides the change of scene
#[derive(Debug, Clone, Copy, PartialEq, Eq, Structural)]
pub enum Action {
    Nothing,
    /// pay this many points for the chosen upgrades, start a fresh run with
    /// the store's loadout, and restart the tick clock
    StartRun(u64),
    /// hand a move to the game
    Move(Input),
    /// restart the scene's clock
    RestartClock,
    /// advance the game by the time since the last tick, then restart the
    /// tick clock
    Tick,
}

/// how long a scene's clock runs before something happens, in milliseconds
pub fn clock_limit_ms(scene: Scene) -> (r: Option<u64>)
    ensures
        r == match scene {
            Scene::FadeIn | Scene::FadeOut => Some(FADE_MS),
            Scene::Playing { .. } => Some(TICK_MS),
            Scene::GameOver => Some(GAME_OVER_DELAY_MS),
            _ => None::<u64>,
        },
{
    match scene {
        Scene::FadeIn | Scene::FadeOut => Some(FADE_MS),
        Scene::Playing { .. } => Some(TICK_MS),
        Scene::GameOver => Some(GAME_OVER_DELAY_MS),
        _ => None,
    }
}

/// the keys that leave for the party from any scene
pub open spec fn is_quit(key: Key) -> bool {
    key == Key::Char('q') || key == Key::Char('Q')
}

/// the move an arrow key asks for
pub open spec fn arrow_input(key: Key) -> Option<Input> {
    match key {
        Key::Up => Some(Input::Up),
        Key::Down => Some(Input::Down),
        Key::Left => Some(Input::Left),
        Key::Right => Some(Input::Right),
        _ => None,
    }
}

/// the scene and action after a key press, the store's part aside; `expired`
/// says whether the scene's clock has run out
pub open spec fn key_step(scene: Scene, key: Key, expired: bool, spent: u64) -> (Scene, Action) {
    if is_quit(key) {
        (Scene::Done, Action::Nothing)
    } else {
        match scene {
            Scene::Welcome => if key == Key::Enter {
                (Scene::Store, Action::Nothing)
            } else {
                (Scene::Welcome, Action::Nothing)
            },
            Scene::Store => if key == Key::Enter {
                (Scene::Playing { running: true }, Action::StartRun(spent))
            } else {
                (Scene::Store, Action::Nothing)
            },
            Scene::Playing { running } => if key == Key::Char(' ') {
                (Scene::Playing { running: !running }, if !running { Action::RestartClock } else { Action::Nothing })
            } else {
                match arrow_input(key) {
                    Some(i) => (scene, Action::Move(i)),
                    None => (scene, Action::Nothing),
                }
            },
            Scene::GameOver => if expired {
                (Scene::FadeOut, Action::RestartClock)
            } else {
                (Scene::GameOver, Action::Nothing)
            },
            _ => (scene, Action::Nothing),
        }
    }
}

/// how a key press in the store changes it: up and down move the highlight,
/// left and right lower and raise the highlighted upgrade's tier
pub open spec fn store_after_key(before: Store, after: Store, key: Key) -> bool {
    let sel = before.spec_selected();
    let tiers = before.spec_tiers();
    &&& after.spec_budget() == before.spec_budget()
    &&& match key {
        Key::Up => after.spec_selected() == (if sel == 0 { 0 } else { (sel - 1) as usize })
            && after.spec_tiers() == tiers,
        Key::Down => after.spec_selected() == (if sel + 1 < UPGRADE_COUNT {
            (sel + 1) as usize
        } else {
            (UPGRADE_COUNT - 1) as usize
        }) && after.spec_tiers() == tiers,
        Key::Left => after.spec_selected() == sel && after.spec_tiers() == tiers_after_down(tiers, sel as int),
        Key::Right => after.spec_selected() == sel && after.spec_tiers() == tiers_after_up(
            tiers,
            sel as int,
            before.spec_budget(),
        ),
        _ => after.spec_selected() == sel && after.spec_tiers() == tiers,
    }
}

/// One key press. `expired` says whether the scene's clock has run out (on
/// the results screen: whether input is taken yet). In the store the keys
/// shop; Enter buys the chosen upgrades and starts the run.
pub fn on_key(scene: Scene, key: Key, expired: bool, store: &mut Store) -> (r: (Scene, Action))
    ensures
        r == key_step(scene, key, expired, old(store).spec_spent() as u64),
        scene == Scene::Store && !is_quit(key) ==> store_after_key(*old(store), *final(store), key),
        scene != Scene::Store || is_quit(key) ==> *final(store) == *old(store),
{
    if let Key::Char(c) = key {
        if c == 'q' || c == 'Q' {
            return (Scene::Done, Action::Nothing);
        }
    }
    match scene {
        Scene::Welcome => if let Key::Enter = key {
            (Scene::Store, Action::Nothing)
        } else {
            (Scene::Welcome, Action::Nothing)
        },
        Scene::Store => match key {
            Key::Up => {
                store.select_prev();
                (Scene::Store, Action::Nothing)
            },
            Key::Down => {
                store.select_next();
                (Scene::Store, Action::Nothing)
            },
            Key::Left => {
                store.tier_down();
                (Scene::Store, Action::Nothing)
            },
            Key::Right => {
                store.tier_up();
                (Scene::Store, Action::Nothing)
            },
            Key::Enter => (Scene::Playing { running: true }, Action::StartRun(store.spent())),
            _ => (Scene::Store, Action::Nothing),
        },
        Scene::Playing { running } => match key {
            Key::Char(' ') => {
                // resuming restarts the tick clock, so a long pause doesn't
                // burn time or fuel in one big catch-up tick
                let action = if !running {
                    Action::RestartClock
                } else {
                    Action::Nothing
                };
                (Scene::Playing { running: !running }, action)
            },
            Key::Up => (scene, Action::Move(Input::Up)),
            Key::Down => (scene, Action::Move(Input::Down)),
            Key::Left => (scene, Action::Move(Input::Left)),
            Key::Right => (scene, Action::Move(Input::Right)),
            _ => (scene, Action::Nothing),
        },
        Scene::GameOver => if expired {
            (Scene::FadeOut, Action::RestartClock)
        } else {
            (Scene::GameOver, Action::Nothing)
        },
        _ => (scene, Action::Nothing),
    }
}

/// the progression a frame makes with time alone
pub open spec fn frame_step(scene: Scene, expired: bool) -> (Scene, Action) {
    match scene {
        Scene::FadeIn => if expired { (Scene::Welcome, Action::Nothing) } else { (scene, Action::Nothing) },
        Scene::Playing { running } => if running && expired {
            (scene, Action::Tick)
        } else {
            (scene, Action::Nothing)
        },
        Scene::FadeOut => if expired { (Scene::Done, Action::Nothing) } else { (scene, Action::Nothing) },
        _ => (scene, Action::Nothing),
    }
}

/// Once per frame, after the keys: fades end when their clock runs out, and
/// a running game ticks when its tick clock does.
pub fn on_frame(scene: Scene, expired: bool) -> (r: (Scene, Action))
    ensures
        r == frame_step(scene, expired),
{
    match scene {
        Scene::FadeIn => if expired { (Scene::Welcome, Action::Nothing) } else { (scene, Action::Nothing) },
        Scene::Playing { running } => if running && expired {
            (scene, Action::Tick)
        } else {
            (scene, Action::Nothing)
        },
        Scene::FadeOut => if expired { (Scene::Done, Action::Nothing) } else { (scene, Action::Nothing) },
        _ => (scene, Action::Nothing),
    }
}

/// After the frame's tick: a run whose fuel or time is gone ends, showing
/// the results.
pub fn on_game_state(scene: Scene, over: bool) -> (r: (Scene, Action))
    ensures
        r == (if scene is Playing && over {
            (Scene::GameOver, Action::RestartClock)
        } else {
            (scene, Action::Nothing)
        }),
{
    match scene {
        Scene::Playing { .. } => if over {
            (Scene::GameOver, Action::RestartClock)
        } else {
            (scene, Action::Nothing)
        },
        _ => (scene, Action::Nothing),
    }
}

/// The lines of the results panel: the deepest depth reached, what was
/// banked, and the best haul, or a cheer when this run beat it.
pub open spec fn results_body(max_depth: nat, haul: u64, best: u64) -> Seq<Seq<char>> {
    seq![
        "Max depth        \u{2193}"@ + decimal_digits(max_depth),
        "Gained           "@ + decimal_digits(haul as nat) + " P"@,
        if haul > best {
            "\u{2605} New best haul! \u{2605}"@
        } else {
            "Best haul        "@ + decimal_digits(best as nat) + " P"@
        },
    ]
}

pub fn results_lines(max_depth: i64, haul: u64, best: u64) -> (r: Vec<String>)
    requires
        max_depth >= 0,
    ensures
        r@.map_values(|l: String| l@) == results_body(max_depth as nat, haul, best),
{
    let mut depth = "Max depth        \u{2193}".to_string();
    depth.append(decimal(max_depth as u64).as_str());
    let mut banked = "Gained           ".to_string();
    banked.append(decimal(haul).as_str());
    banked.append(" P");
    let best_line = if haul > best {
        "\u{2605} New best haul! \u{2605}".to_string()
    } else {
        let mut l = "Best haul        ".to_string();
        l.append(decimal(best).as_str());
        l.append(" P");
        l
    };
    let r = vec![depth, banked, best_line];
    assert(r@.map_values(|l: String| l@) =~= results_body(max_depth as nat, haul, best));
    r
}

impl GameObject for TreasureDepths {
    fn id(&self) -> (r: &'static str)
        ensures
            r@ == "treasure_depths"@,
    {
        "treasure_depths"
    }

    fn name(&self) -> (r: &'static str)
        ensures
            r@ == "Treasure Depths"@,
    {
        "Treasure Depths"
    }

    fn description(&self) -> (r: &'static str)
        ensures
            r@ == "Dig deep for treasure and climb back to the surface with your haul before your fuel or time runs out."@,
    {
        "Dig deep for treasure and climb back to the surface with your haul before your fuel or time runs out."
    }

    fn cost(&self) -> (r: u64)
        ensures
            r == 150,
    {
        150
    }

    fn clear_color(&self) -> (r: (u8, u8, u8))
        ensures
            r == (10u8, 10u8, 10u8),
    {
        (10u8, 10u8, 10u8)
    }
}

} // verus!
