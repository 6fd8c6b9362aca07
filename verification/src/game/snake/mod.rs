//! Snake: grow the snake to earn party points.

pub mod game;
pub mod render;

use vstd::prelude::*;

use super::{best_of, GameObject, Key};
use game::{
    dir_after, has_free_cell, pending_after_step, pending_after_turn, step, steppable, Dir, SnakeGame,
};

verus! {

/// Classic snake game in which users earn points as they grow their snake.
pub struct Snake;

/// what is kept between plays
#[derive(Debug, Default)]
pub struct State {
    /// the best score so far
    high_score: u64,
}

impl State {
    pub closed spec fn spec_high_score(&self) -> u64 {
        self.high_score
    }

    pub fn high_score(&self) -> (r: u64)
        ensures
            r == self.spec_high_score(),
    {
        self.high_score
    }

    /// records a finished game's score
    pub fn record_score(&mut self, points: u64)
        ensures
            final(self).spec_high_score() == best_of(old(self).spec_high_score(), points),
    {
        if points > self.high_score {
            self.high_score = points;
        }
    }
}

/// how long a fade lasts, in milliseconds
pub const FADE_MS: u64 = 500;

/// how long the dead snake stays on screen, in milliseconds
pub const DEAD_MS: u64 = 2000;

/// the screens a game of snake goes through
#[derive(Debug, Clone, Copy, PartialEq, Eq, Structural)]
pub enum Scene {
    FadeIn,
    Title,
    Running,
    Paused,
    Dead,
    GameOver,
    FadeOut,
    Done,
}

/// how long a scene's clock runs before the scene moves on, in
/// milliseconds; a running game ticks at a pace set by its score instead
pub fn clock_limit_ms(scene: Scene) -> (r: Option<u64>)
    ensures
        r == match scene {
            Scene::FadeIn | Scene::FadeOut => Some(FADE_MS),
            Scene::Dead => Some(DEAD_MS),
            _ => None::<u64>,
        },
{
    match scene {
        Scene::FadeIn | Scene::FadeOut => Some(FADE_MS),
        Scene::Dead => Some(DEAD_MS),
        _ => None,
    }
}

/// the direction an arrow key asks for
pub open spec fn arrow_dir(key: Option<Key>) -> Option<Dir> {
    match key {
        Some(Key::Up) => Some(Dir::Up),
        Some(Key::Down) => Some(Dir::Down),
        Some(Key::Left) => Some(Dir::Left),
        Some(Key::Right) => Some(Dir::Right),
        _ => None,
    }
}

pub open spec fn is_space(key: Option<Key>) -> bool {
    key == Some(Key::Char(' '))
}

/// the scene after a frame, given the key pressed (if any), whether the
/// scene's clock has run out, and whether the snake is dead after the frame;
/// `q` leaves the game from any scene
pub open spec fn next_scene(scene: Scene, key: Option<Key>, expired: bool, dead: bool) -> Scene {
    if key == Some(Key::Char('q')) {
        Scene::Done
    } else {
        match scene {
            Scene::FadeIn => if expired { Scene::Title } else { Scene::FadeIn },
            Scene::Title => if key.is_some() { Scene::Running } else { Scene::Title },
            Scene::Running => if dead {
                Scene::Dead
            } else if is_space(key) {
                Scene::Paused
            } else {
                Scene::Running
            },
            Scene::Paused => if is_space(key) { Scene::Running } else { Scene::Paused },
            Scene::Dead => if expired { Scene::GameOver } else { Scene::Dead },
            Scene::GameOver => if key.is_some() { Scene::FadeOut } else { Scene::GameOver },
            Scene::FadeOut => if expired { Scene::Done } else { Scene::FadeOut },
            Scene::Done => Scene::Done,
        }
    }
}

/// whether the frame restarts the scene's clock: on entering a scene that
/// waits, and on every step of a running game
pub open spec fn restarts_clock(scene: Scene, key: Option<Key>, stepped: bool, next: Scene) -> bool {
    key != Some(Key::Char('q')) && match scene {
        Scene::Title => next == Scene::Running,
        Scene::Running => stepped || next == Scene::Dead,
        Scene::Paused => next == Scene::Running,
        Scene::GameOver => next == Scene::FadeOut,
        _ => false,
    }
}

/// One frame of a game of snake. `expired` says whether the scene's clock
/// has run out: the fade or the wait on the dead snake is over, or, while
/// running, a tick is due. While running, an arrow key queues a turn and a
/// due tick moves the snake (a snake that fills the board can move no
/// further). Returns the next scene and whether its clock restarts.
pub fn update(scene: Scene, key: Option<Key>, expired: bool, game: &mut SnakeGame) -> (r: (Scene, bool))
    requires
        scene == Scene::Running ==> old(game).spec_snake().len() > 0,
    ensures
        scene != Scene::Running || key == Some(Key::Char('q')) ==> *final(game) == *old(game),
        scene == Scene::Running && key != Some(Key::Char('q')) ==> ({
            let g = *old(game);
            let p = match arrow_dir(key) {
                Some(d) => pending_after_turn(g.spec_dir(), g.spec_pending(), d),
                None => g.spec_pending(),
            };
            let nd = dir_after(g.spec_dir(), p);
            let nh = step(g.spec_snake()[0], nd);
            let eats = nh == g.spec_food();
            let can = steppable(g.spec_snake()[0]) && (eats ==> has_free_cell(
                g.spec_width(),
                g.spec_height(),
                seq![nh] + g.spec_snake().drop_last(),
            ));
            let f = *final(game);
            &&& f.spec_width() == g.spec_width()
            &&& f.spec_height() == g.spec_height()
            &&& if expired && can {
                &&& f.spec_dir() == nd
                &&& f.spec_pending() == pending_after_step(p)
                &&& eats ==> f.spec_snake() == seq![nh] + g.spec_snake()
                    && game::on_board(f.spec_width(), f.spec_height(), f.spec_food())
                    && !(seq![nh] + g.spec_snake().drop_last()).contains(f.spec_food())
                &&& !eats ==> f.spec_snake() == seq![nh] + g.spec_snake().drop_last()
                    && f.spec_food() == g.spec_food()
            } else {
                &&& f.spec_dir() == g.spec_dir()
                &&& f.spec_pending() == p
                &&& f.spec_snake() == g.spec_snake()
                &&& f.spec_food() == g.spec_food()
            }
            &&& f.spec_snake().len() > 0
            &&& r.0 == next_scene(scene, key, expired, f.spec_is_dead())
            &&& r.1 == restarts_clock(scene, key, expired && can, r.0)
        }),
        scene != Scene::Running ==> r.0 == next_scene(scene, key, expired, false) && r.1
            == restarts_clock(scene, key, false, r.0),
{
    if let Some(Key::Char('q')) = key {
        return (Scene::Done, false);
    }
    let space = match key {
        Some(Key::Char(' ')) => true,
        _ => false,
    };
    match scene {
        Scene::FadeIn => if expired { (Scene::Title, false) } else { (Scene::FadeIn, false) },
        Scene::Title => if key.is_some() { (Scene::Running, true) } else { (Scene::Title, false) },
        Scene::Running => {
            match key {
                Some(Key::Up) => game.turn(Dir::Up),
                Some(Key::Down) => game.turn(Dir::Down),
                Some(Key::Left) => game.turn(Dir::Left),
                Some(Key::Right) => game.turn(Dir::Right),
                _ => {},
            }
            let mut stepped = false;
            if expired && game.can_advance() {
                game.advance();
                stepped = true;
            }
            if game.is_dead() {
                (Scene::Dead, true)
            } else if space {
                (Scene::Paused, stepped)
            } else {
                (Scene::Running, stepped)
            }
        },
        Scene::Paused => if space { (Scene::Running, true) } else { (Scene::Paused, false) },
        Scene::Dead => if expired { (Scene::GameOver, false) } else { (Scene::Dead, false) },
        Scene::GameOver => if key.is_some() { (Scene::FadeOut, true) } else { (Scene::GameOver, false) },
        Scene::FadeOut => if expired { (Scene::Done, false) } else { (Scene::FadeOut, false) },
        Scene::Done => (Scene::Done, false),
    }
}

impl GameObject for Snake {
    fn id(&self) -> (r: &'static str)
        ensures
            r@ == "snake"@,
    {
        "snake"
    }

    fn name(&self) -> (r: &'static str)
        ensures
            r@ == "Snake"@,
    {
        "Snake"
    }

    fn description(&self) -> (r: &'static str)
        ensures
            r@ == "The classic game made popular by late-90s Nokia cell phones. Earn party points as you collect food and grow your snake."@,
    {
        "The classic game made popular by late-90s Nokia cell phones. Earn party points as you collect food and grow your snake."
    }

    fn cost(&self) -> (r: u64)
        ensures
            r == 100,
    {
        100
    }

    fn clear_color(&self) -> (r: (u8, u8, u8))
        ensures
            r == (10u8, 10u8, 10u8),
    {
        (10u8, 10u8, 10u8)
    }
}

} // verus!
