//! Stack: stop the moving bar to line it up with the one below.

pub mod game;
pub mod render;

use vstd::prelude::*;

use super::{best_of, GameObject, Key};
use game::Input;

verus! {

/// Timing-based stacking game: stop the moving bar to line it up with the one
/// below. Perfect placements build a multiplier.
pub struct Stack;

/// what is kept between plays
#[derive(Debug, Default)]
pub struct State {
    /// the best score so far
    high_score: u64,
}

impl State {
    pub closed spec fn spec_high_score(&self) -> u64 {
        self.high_score
    }

    pub fn high_score(&self) -> (r: u64)
        ensures
            r == self.spec_high_score(),
    {
        self.high_score
    }

    /// records a finished game's score
    pub fn record_score(&mut self, points: u64)
        ensures
            final(self).spec_high_score() == best_of(old(self).spec_high_score(), points),
    {
        if points > self.high_score {
            self.high_score = points;
        }
    }
}

/// where a game of stack stands: fading in, running, showing the end,
/// fading out, or done
#[derive(Debug, Clone, Copy, PartialEq, Eq, Structural)]
pub enum Scene {
    FadeIn,
    Running,
    GameOver,
    FadeOut,
    Done,
}

/// whether a key cuts the moving bar
pub open spec fn is_cut_key(key: Option<Key>) -> bool {
    key == Some(Key::Enter) || key == Some(Key::Char(' '))
}

/// what a frame hands the game's tick: nothing when the game does not move
/// (`None`), a tick without input while fading in, and while running a
/// tick that cuts when a cut key was pressed
pub open spec fn spec_frame_tick(scene: Scene, key: Option<Key>) -> Option<Option<Input>> {
    if key == Some(Key::Char('q')) {
        None
    } else {
        match scene {
            Scene::FadeIn => Some(None),
            Scene::Running => Some(if is_cut_key(key) { Some(Input::Cut) } else { None }),
            _ => None,
        }
    }
}

/// the tick a frame asks of the game (see `spec_frame_tick`)
pub fn frame_tick(scene: Scene, key: Option<Key>) -> (r: Option<Option<Input>>)
    ensures
        r == spec_frame_tick(scene, key),
{
    if let Some(Key::Char('q')) = key {
        return None;
    }
    let cut = match key {
        Some(Key::Enter) | Some(Key::Char(' ')) => true,
        _ => false,
    };
    match scene {
        Scene::FadeIn => Some(None),
        Scene::Running => if cut { Some(Some(Input::Cut)) } else { Some(None) },
        _ => None,
    }
}

/// the scene after a frame: `q` ends the game at once; a fade ends when its
/// time has run (`expired`); a running game ends when the game is `over`;
/// the end screen waits for any key
pub open spec fn spec_next_scene(scene: Scene, key: Option<Key>, expired: bool, over: bool) -> Scene {
    if key == Some(Key::Char('q')) {
        Scene::Done
    } else {
        match scene {
            Scene::FadeIn => if expired { Scene::Running } else { Scene::FadeIn },
            Scene::Running => if over { Scene::GameOver } else { Scene::Running },
            Scene::GameOver => if key.is_some() { Scene::FadeOut } else { Scene::GameOver },
            Scene::FadeOut => if expired { Scene::Done } else { Scene::FadeOut },
            Scene::Done => Scene::Done,
        }
    }
}

/// One frame's decisions in a game of stack. `expired` says whether the
/// fade's time has run out, `cut_made` whether this frame's tick made a
/// cut, and `over` whether the game has ended after it. Returns the next
/// scene, whether the fade clock restarts (on leaving the end screen), and
/// whether a cut was made while running (the instructions then hide and
/// the last cut's time restarts).
pub fn update(scene: Scene, key: Option<Key>, expired: bool, cut_made: bool, over: bool) -> (r: (
    Scene,
    bool,
    bool,
))
    ensures
        r.0 == spec_next_scene(scene, key, expired, over),
        r.1 == (key != Some(Key::Char('q')) && scene == Scene::GameOver && key.is_some()),
        r.2 == (key != Some(Key::Char('q')) && scene == Scene::Running && cut_made),
{
    if let Some(Key::Char('q')) = key {
        return (Scene::Done, false, false);
    }
    match scene {
        Scene::FadeIn => (if expired { Scene::Running } else { Scene::FadeIn }, false, false),
        Scene::Running => (if over { Scene::GameOver } else { Scene::Running }, false, cut_made),
        Scene::GameOver => if key.is_some() { (Scene::FadeOut, true, false) } else { (Scene::GameOver, false, false) },
        Scene::FadeOut => (if expired { Scene::Done } else { Scene::FadeOut }, false, false),
        Scene::Done => (Scene::Done, false, false),
    }
}

impl GameObject for Stack {
    fn id(&self) -> (r: &'static str)
        ensures
            r@ == "stack"@,
    {
        "stack"
    }

    fn name(&self) -> (r: &'static str)
        ensures
            r@ == "Stack"@,
    {
        "Stack"
    }

    fn description(&self) -> (r: &'static str)
        ensures
            r@ == "Stack the moving bars by stopping them at the right time. Perfect placements build a multiplier for more party points!"@,
    {
        "Stack the moving bars by stopping them at the right time. Perfect placements build a multiplier for more party points!"
    }

    fn cost(&self) -> (r: u64)
        ensures
            r == 30,
    {
        30
    }

    fn clear_color(&self) -> (r: (u8, u8, u8))
        ensures
            r == (10u8, 10u8, 10u8),
    {
        (10u8, 10u8, 10u8)
    }
}

} // verus!
