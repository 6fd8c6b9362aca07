use post_push_party::bonus_tracks::{BonusTrack, FirstPush, PushContext, Streak};
use post_push_party::clock::Clock;
use post_push_party::game::snake::game::{Dir, SnakeGame};
use post_push_party::game::snake::render as snake_render;
use post_push_party::game::snake::{update, Scene as SnakeScene};
use post_push_party::game::Key;
use post_push_party::game::stack::game::{after_cut, cut_halves, game_bounds, score as stack_score, Input};
use post_push_party::game::stack::render as stack_render;
use post_push_party::game::stack::{frame_tick, update as stack_update, Scene as StackScene};
use post_push_party::game::stack::render::get_bg_color;
use post_push_party::game::treasure_depths::menu::{center, Menu};
use post_push_party::game::treasure_depths::render::Renderer;
use post_push_party::game::{snake, stack, treasure_depths, GameObject, Snake, Stack, TreasureDepths};
use post_push_party::git::{Commit, Push};
use post_push_party::history::{PushEntry, PushHistory};
use post_push_party::pack::{Pack, PackItem, Rarity};
use post_push_party::party::{Breakdown, Party};

#[test]
fn turns_only_take_perpendicular_directions() {
    assert_eq!(Dir::Up.turn(Dir::Left), Dir::Left);
    assert_eq!(Dir::Up.turn(Dir::Down), Dir::Up);
    assert_eq!(Dir::Right.turn(Dir::Left), Dir::Right);
    assert!(Dir::Left.is_perpendicular(Dir::Up));
    assert!(!Dir::Left.is_perpendicular(Dir::Right));
}

#[test]
fn snake_moves_right_and_turns() {
    let mut game = SnakeGame::new(20, 10);
    assert_eq!(game.snake.len(), 3);
    assert_eq!(game.snake[0], (10, 5));
    assert!(game.food.0 >= 0 && game.food.0 < 20 && game.food.1 >= 0 && game.food.1 < 10);
    assert!(!game.snake.contains(&game.food));
    assert_eq!(game.score(), 0);

    // keep the food out of the way
    game.food = (0, 0);
    game.advance();
    assert_eq!(game.snake[0], (11, 5));
    assert_eq!(game.snake.len(), 3);

    game.turn(Dir::Left); // not a turn: ignored
    game.turn(Dir::Up);
    game.turn(Dir::Right);
    game.turn(Dir::Down); // a third pending turn: ignored
    game.advance();
    assert_eq!(game.snake[0], (11, 4));
    game.advance();
    assert_eq!(game.snake[0], (12, 4));
    assert!(!game.is_dead());
}

#[test]
fn snake_grows_when_eating() {
    let mut game = SnakeGame::new(20, 10);
    game.food = (11, 5);
    game.advance();
    assert_eq!(game.snake.len(), 4);
    assert_eq!(game.score(), 1);
    // new food lies clear of the moved snake: head and all but the kept tail
    assert!(!game.snake.iter().take(3).any(|c| *c == game.food));
}

#[test]
fn new_food_may_land_on_the_kept_tail_cell() {
    // a one-row board of four cells: the food can only start at the right end
    let mut game = SnakeGame::new(4, 1);
    assert_eq!(game.food_cell(), (3, 0));
    assert_eq!(game.board_width(), 4);
    assert_eq!(game.board_height(), 1);
    game.advance();
    // the moved snake covers (3,0), (2,0), (1,0); the tail it keeps on
    // eating is the only cell left for the new food
    assert_eq!(game.snake_cells().len(), 4);
    assert_eq!(game.food_cell(), (0, 0));
}

#[test]
fn snake_text_lines() {
    assert_eq!(snake_render::score_text(7), "Score: 7");
    assert_eq!(snake_render::high_score_text(120), "High Score: 120");
    assert_eq!(snake_render::paused_text(), "PAUSED  (press space to resume)");
    assert_eq!(snake_render::message_row(2, 15), 11);
    assert_eq!(snake_render::message_row(2, 14), 10);
    assert_eq!(snake_render::centered_col(17, 5, 60), 26);
    let title = snake_render::title_lines();
    assert_eq!(title.len(), 6);
    assert_eq!(title[0], (3, "Welcome to Snake!".to_string()));
    assert_eq!(title[5], (11, "Press any key to play!".to_string()));

    let one = snake_render::game_over_lines(1, false);
    assert_eq!(
        one,
        vec![
            (3, "Game Over!".to_string()),
            (5, "You collected 1 fruit.".to_string()),
            (9, "You earned 1 party point!".to_string()),
            (10, "Press any key to return to Party.".to_string()),
        ]
    );
    let best = snake_render::game_over_lines(12, true);
    assert_eq!(best.len(), 5);
    assert_eq!(best[1], (5, "You collected 12 fruits.".to_string()));
    assert_eq!(best[2], (6, "(That's a new high score!)".to_string()));
    assert_eq!(best[3], (9, "You earned 12 party points!".to_string()));
}

#[test]
fn stack_scenes_follow_keys_and_fades() {
    // fading in, the bar moves without input; running, a cut key cuts
    assert!(matches!(frame_tick(StackScene::FadeIn, Some(Key::Enter)), Some(None)));
    assert!(matches!(frame_tick(StackScene::Running, Some(Key::Enter)), Some(Some(Input::Cut))));
    assert!(matches!(frame_tick(StackScene::Running, Some(Key::Char(' '))), Some(Some(Input::Cut))));
    assert!(matches!(frame_tick(StackScene::Running, Some(Key::Up)), Some(None)));
    assert!(frame_tick(StackScene::GameOver, Some(Key::Enter)).is_none());
    assert!(frame_tick(StackScene::Running, Some(Key::Char('q'))).is_none());

    assert_eq!(stack_update(StackScene::FadeIn, None, false, false, false), (StackScene::FadeIn, false, false));
    assert_eq!(stack_update(StackScene::FadeIn, None, true, false, false), (StackScene::Running, false, false));
    assert_eq!(stack_update(StackScene::Running, Some(Key::Enter), false, true, false), (StackScene::Running, false, true));
    assert_eq!(stack_update(StackScene::Running, Some(Key::Enter), false, true, true), (StackScene::GameOver, false, true));
    assert_eq!(stack_update(StackScene::GameOver, None, true, false, true), (StackScene::GameOver, false, false));
    assert_eq!(stack_update(StackScene::GameOver, Some(Key::Other), false, false, true), (StackScene::FadeOut, true, false));
    assert_eq!(stack_update(StackScene::FadeOut, None, false, false, true), (StackScene::FadeOut, false, false));
    assert_eq!(stack_update(StackScene::FadeOut, None, true, false, true), (StackScene::Done, false, false));
    assert_eq!(stack_update(StackScene::Running, Some(Key::Char('q')), false, true, false), (StackScene::Done, false, false));
}

#[test]
fn snake_dies_at_the_wall() {
    let mut game = SnakeGame::new(4, 4);
    game.food = (0, 3);
    game.advance();
    game.advance();
    assert!(game.is_dead());
}

#[test]
fn game_listings() {
    assert_eq!(Snake.id(), "snake");
    assert_eq!(Snake.cost(), 100);
    assert_eq!(Stack.name(), "Stack");
    assert_eq!(Stack.cost(), 30);
    assert_eq!(TreasureDepths.id(), "treasure_depths");
    assert_eq!(TreasureDepths.cost(), 150);
    assert_eq!(TreasureDepths.clear_color(), (10, 10, 10));
    assert!(Snake.description().starts_with("The classic game"));
}

#[test]
fn high_scores_only_go_up() {
    let mut state = snake::State::default();
    state.record_score(5);
    state.record_score(3);
    assert_eq!(state.high_score(), 5);

    let mut state = stack::State::default();
    state.record_score(7);
    assert_eq!(state.high_score(), 7);

    let mut state = treasure_depths::State::default();
    state.record_haul(0);
    state.record_haul(15);
    state.record_haul(10);
    assert_eq!(state.best_haul(), 15);
}

#[test]
fn layout_helpers() {
    assert_eq!(game_bounds(100), (20, 80));
    assert_eq!(game_bounds(40), (0, 40));
    assert_eq!(get_bg_color(3, 10, 20), (13, 13, 13));
    assert_eq!(get_bg_color(300, 0, 5), (255, 255, 255));
    assert_eq!(center((80, 24), 52, 12), (14, 6));
    assert_eq!(center((10, 5), 52, 12), (0, 0));
    assert_eq!(Menu::new((80, 24)).term(), (80, 24));
    assert_eq!(Renderer::new().scroll(), 0);
}

#[test]
fn packs_and_items() {
    assert_eq!(Pack::Basic.cost(), 1_000);
    assert_eq!(Pack::Premium.cost(), 10_000);
    assert_eq!(Pack::Premium.name(), "Premium Pack");
    assert_eq!(Pack::Basic.template().0.len(), 5);
    assert_eq!(Pack::Premium.template().0, &[Rarity::Common, Rarity::Rare, Rarity::Epic]);
    assert_eq!(Rarity::Epic.upgrade(), Some(Rarity::Legendary));
    assert_eq!(Rarity::Legendary.upgrade(), None);
    let item = PackItem::PointBundle { points: 25, rarity: Rarity::Common };
    assert_eq!(item.rarity(), Rarity::Common);
}

#[test]
fn breakdown_party_listing() {
    assert_eq!(Breakdown.id(), "breakdown");
    assert_eq!(Breakdown.cost(), 50);
    assert!(!Breakdown.supports_color());
}

#[test]
fn first_push_and_streak_never_both_apply() {
    // a push today means no first-push bonus but a possible streak
    let push = Push::new(vec![Commit::default()]);
    let history = PushHistory::from_entries(vec![
        PushEntry::at(100 * 86400 + 3600),
        PushEntry::at(101 * 86400 + 3600),
        PushEntry::at(102 * 86400 + 3600),
    ]);
    let clock = Clock::at(102 * 86400 + 7200);
    let ctx = PushContext { push: &push, history: &history, clock: &clock };
    assert_eq!(FirstPush.applies(&ctx), 0);
    assert_eq!(Streak.applies(&ctx), 1);

    // no push today: the first-push bonus, and no streak
    let clock = Clock::at(103 * 86400 + 7200);
    let ctx = PushContext { push: &push, history: &history, clock: &clock };
    assert_eq!(FirstPush.applies(&ctx), 1);
    assert_eq!(Streak.applies(&ctx), 0);
}

#[test]
fn snake_scenes_follow_keys_and_clocks() {
    let mut game = SnakeGame::new(20, 10);
    assert_eq!(snake::clock_limit_ms(SnakeScene::FadeIn), Some(500));
    assert_eq!(snake::clock_limit_ms(SnakeScene::Dead), Some(2000));
    assert_eq!(update(SnakeScene::FadeIn, None, false, &mut game), (SnakeScene::FadeIn, false));
    assert_eq!(update(SnakeScene::FadeIn, None, true, &mut game), (SnakeScene::Title, false));
    assert_eq!(update(SnakeScene::Title, None, true, &mut game), (SnakeScene::Title, false));
    assert_eq!(update(SnakeScene::Title, Some(Key::Other), false, &mut game), (SnakeScene::Running, true));

    // a turn is queued at once; the snake only moves when a tick is due
    assert_eq!(update(SnakeScene::Running, Some(Key::Down), false, &mut game), (SnakeScene::Running, false));
    assert_eq!(game.snake[0], (10, 5));
    assert_eq!(update(SnakeScene::Running, None, true, &mut game), (SnakeScene::Running, true));
    assert_eq!(game.snake[0], (10, 6));

    assert_eq!(update(SnakeScene::Running, Some(Key::Char(' ')), false, &mut game), (SnakeScene::Paused, false));
    assert_eq!(update(SnakeScene::Paused, Some(Key::Up), true, &mut game), (SnakeScene::Paused, false));
    assert_eq!(game.snake[0], (10, 6));
    assert_eq!(update(SnakeScene::Paused, Some(Key::Char(' ')), false, &mut game), (SnakeScene::Running, true));

    // 'q' leaves at once, without moving the snake
    assert_eq!(update(SnakeScene::Running, Some(Key::Char('q')), true, &mut game), (SnakeScene::Done, false));
    assert_eq!(game.snake[0], (10, 6));
}

#[test]
fn a_dead_snake_ends_the_game() {
    let mut game = SnakeGame::new(20, 10);
    // run into the right wall
    let mut scene = SnakeScene::Running;
    for _ in 0..20 {
        let (next, _) = update(scene, None, true, &mut game);
        scene = next;
        if scene == SnakeScene::Dead {
            break;
        }
    }
    assert_eq!(scene, SnakeScene::Dead);
    assert_eq!(update(SnakeScene::Dead, Some(Key::Other), false, &mut game), (SnakeScene::Dead, false));
    assert_eq!(update(SnakeScene::Dead, None, true, &mut game), (SnakeScene::GameOver, false));
    assert_eq!(update(SnakeScene::GameOver, Some(Key::Enter), false, &mut game), (SnakeScene::FadeOut, true));
    assert_eq!(update(SnakeScene::FadeOut, None, true, &mut game), (SnakeScene::Done, false));
}

#[test]
fn food_is_placed_by_the_draw_in_reading_order() {
    let mut taken = std::collections::VecDeque::new();
    taken.push_back((0, 0));
    taken.push_back((2, 0));
    let free = SnakeGame::free_cells_list(3, 2, &taken);
    assert_eq!(free, vec![(1, 0), (0, 1), (1, 1), (2, 1)]);
    assert_eq!(SnakeGame::food_for_draw(3, 2, &taken, 0), (1, 0));
    assert_eq!(SnakeGame::food_for_draw(3, 2, &taken, 3), (2, 1));
    assert!(SnakeGame::free_cells_list(0, 5, &taken).is_empty());
}

#[test]
fn stack_cuts_in_half_cells() {
    // a bar sticking out two half cells on the right
    assert_eq!(cut_halves((42, 82), (40, 80)), Some((42, 80, 2)));
    // and three half cells on the left
    assert_eq!(cut_halves((37, 77), (40, 80)), Some((40, 77, -3)));
    // a perfect cut takes nothing off
    assert_eq!(cut_halves((40, 80), (40, 80)), Some((40, 80, 0)));
    // touching edges are a miss
    assert_eq!(cut_halves((80, 120), (40, 80)), None);
    assert_eq!(cut_halves((0, 40), (40, 80)), None);
}

#[test]
fn perfect_runs_raise_the_multiplier() {
    let (mut run, mut tenths) = (0, 10);
    (run, tenths) = after_cut(run, tenths, true);
    assert_eq!((run, tenths), (1, 11));
    (run, tenths) = after_cut(run, tenths, true);
    assert_eq!((run, tenths), (2, 13));
    (run, tenths) = after_cut(run, tenths, false);
    assert_eq!((run, tenths), (0, 13));
    assert_eq!(stack_score(7, 13), 9);
    assert_eq!(stack_score(3, 10), 3);
}

#[test]
fn stack_text_lines() {
    assert_eq!(stack_render::instructions(), "Press space or enter to stop the bar, q to quit.");
    assert_eq!(stack_render::perfect_text(1), "perfect!");
    assert_eq!(stack_render::perfect_text(3), "perfect x3!");
    assert_eq!(stack_render::score_line(12, 13), "stack: 12  mult: 1.3");
    assert_eq!(stack_render::score_line(0, 10), "stack: 0  mult: 1.0");
    assert_eq!(stack_render::centered_col(9, 60), 25);
    assert_eq!(stack_render::centered_col(90, 60), 0);
    assert_eq!(
        stack_render::game_over_lines(42),
        vec![
            (5, "Game Over".to_string()),
            (7, "You earned 42 party points!".to_string()),
            (9, "Press any key to return to party.".to_string()),
        ]
    );
}
