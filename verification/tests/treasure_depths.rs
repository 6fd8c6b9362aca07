use post_push_party::game::treasure_depths::game::{
    new_tile, CollectibleKind, Game, Input, Loadout, Tile, TileKind, SKY_HEIGHT,
};
use post_push_party::game::treasure_depths::menu::{draw_box, write_text, Menu};
use post_push_party::game::treasure_depths::render::Renderer;
use post_push_party::game::treasure_depths::store::Store;
use post_push_party::game::treasure_depths::{
    clock_limit_ms, on_frame, on_game_state, on_key, results_lines, Action, Scene,
};
use post_push_party::game::Key;

const WIDTH: usize = 60;
const MS: u128 = 1_000_000;
const SEC: u128 = 1_000_000_000;

fn game() -> Game {
    Game::new(WIDTH, Loadout::base(), 0)
}

fn step(game: &mut Game, input: Input, now: u128) {
    game.handle(input);
    assert!(game.has_room());
    game.tick(MS, now);
}

#[test]
fn new_game_is_not_over() {
    assert!(!game().is_over());
}

#[test]
fn new_game_max_depth_is_zero() {
    assert_eq!(game().max_depth(), 0);
}

#[test]
fn moving_down_increases_max_depth() {
    let mut game = game();

    game.handle(Input::Down);
    game.tick(MS, MS);

    assert_eq!(game.current_depth(), 1);
    assert_eq!(game.max_depth(), 1);
}

#[test]
fn moving_back_up_keeps_max_depth() {
    let mut game = game();

    game.handle(Input::Down);
    game.tick(MS, MS);
    game.handle(Input::Up);
    game.tick(MS, 2 * MS);

    assert_eq!(game.current_depth(), 0);
    assert_eq!(game.max_depth(), 1);
}

#[test]
fn out_of_fuel_ends_run() {
    let game = Game::new(
        WIDTH,
        Loadout { starting_fuel: 0, ..Loadout::base() },
        0,
    );
    assert!(game.is_over());
}

#[test]
fn out_of_time_ends_run() {
    let game = Game::new(
        WIDTH,
        Loadout { starting_time: 0, ..Loadout::base() },
        0,
    );
    assert!(game.is_over());
}

#[test]
fn banked_value_survives_end_of_run() {
    let mut game = Game::new(WIDTH, Loadout { starting_time: 1, ..Loadout::base() }, 0);
    let (x, y) = game.pos();
    for dy in 1..=3 {
        let gold = Tile::Visible(TileKind::Collectible { kind: CollectibleKind::Gold });
        assert_eq!(game.get_tile((x, y + dy), gold), gold);
    }
    for i in 0..3 {
        step(&mut game, Input::Down, (i + 1) * MS);
    }
    assert_eq!(game.inventory_count(CollectibleKind::Gold), 3);
    assert_eq!(game.bank_value(), 0);
    for i in 3..6 {
        step(&mut game, Input::Up, (i + 1) * MS);
    }
    // back at the surface: the gold is banked and the tank is full again
    assert_eq!(game.current_depth(), 0);
    assert_eq!(game.inventory_size(), 0);
    assert_eq!(game.fuel(), 1000);
    assert_eq!(game.message(), Some("Fuel refilled! Banked 15 P!".to_string()));

    // the clock runs out
    game.tick(SEC, SEC);
    assert!(game.is_over());
    assert_eq!(game.bank_value(), 3 * 5);
}

#[test]
fn loadout_sets_starting_resources() {
    let game = Game::new(
        WIDTH,
        Loadout {
            reveal_radius: 9,
            starting_fuel: 3000,
            starting_time: 180,
            inventory_capacity: 60,
        },
        0,
    );

    assert_eq!(game.reveal_radius(), 9);
    assert_eq!(game.starting_fuel(), 3000);
    assert_eq!(game.inventory_capacity(), 60);
    assert_eq!(game.remaining_time(), 180 * SEC);
    // fuel starts full relative to the upgraded tank
    assert_eq!(game.fuel(), 3000);
}

#[test]
fn new_tiles_follow_the_sky_and_the_rolls() {
    assert_eq!(new_tile((3, SKY_HEIGHT - 1), true, None), Tile::Visible(TileKind::Sky));
    assert_eq!(new_tile((3, SKY_HEIGHT), true, Some(CollectibleKind::Ruby)), Tile::Fog(TileKind::Rock));
    assert_eq!(
        new_tile((3, SKY_HEIGHT + 4), false, Some(CollectibleKind::Ruby)),
        Tile::Fog(TileKind::Collectible { kind: CollectibleKind::Ruby })
    );
    assert_eq!(new_tile((3, SKY_HEIGHT + 4), false, None), Tile::Fog(TileKind::Ground { depth: 4 }));
}

#[test]
fn rock_blocks_without_costing_fuel() {
    let mut game = game();
    let (x, y) = game.pos();
    game.get_tile((x, y + 1), Tile::Fog(TileKind::Rock));
    step(&mut game, Input::Down, MS);
    assert_eq!(game.pos(), (x, y));
    assert_eq!(game.fuel(), 1000);
}

#[test]
fn digging_ground_costs_five_and_leaves_a_tunnel() {
    let mut game = game();
    let (x, y) = game.pos();
    game.get_tile((x, y + 1), Tile::Fog(TileKind::Ground { depth: 0 }));
    step(&mut game, Input::Down, MS);
    assert_eq!(game.pos(), (x, y));
    assert_eq!(game.fuel(), 995);
    assert_eq!(game.tile((x, y + 1)), Some(Tile::Visible(TileKind::Tunnel)));
    // now the tunnel can be walked into for two
    step(&mut game, Input::Down, 2 * MS);
    assert_eq!(game.pos(), (x, y + 1));
    assert_eq!(game.fuel(), 993);
}

#[test]
fn moving_reveals_the_fog_within_the_radius() {
    let mut game = game();
    let (x, y) = game.pos();
    let fog = Tile::Fog(TileKind::Ground { depth: 3 });
    // three below the new position is within the radius of three
    game.get_tile((x, y + 4), fog);
    // two across and three down is not: 4 + 9 > 3 * 3 + 3
    game.get_tile((x + 2, y + 4), fog);
    step(&mut game, Input::Down, MS);
    assert_eq!(game.tile((x, y + 4)), Some(Tile::Visible(TileKind::Ground { depth: 3 })));
    assert_eq!(game.tile((x + 2, y + 4)), Some(fog));
}

#[test]
fn moves_stay_inside_the_world() {
    let mut game = Game::new(2, Loadout::base(), 0);
    assert_eq!(game.pos(), (1, SKY_HEIGHT - 1));
    step(&mut game, Input::Right, MS);
    assert_eq!(game.pos(), (1, SKY_HEIGHT - 1));
    step(&mut game, Input::Up, 2 * MS);
    assert_eq!(game.pos(), (1, SKY_HEIGHT - 1));
    step(&mut game, Input::Left, 3 * MS);
    step(&mut game, Input::Left, 4 * MS);
    assert_eq!(game.pos(), (0, SKY_HEIGHT - 1));
}

#[test]
fn a_full_inventory_leaves_the_treasure() {
    let mut game = Game::new(WIDTH, Loadout { inventory_capacity: 1, ..Loadout::base() }, 0);
    let (x, y) = game.pos();
    let silver = Tile::Visible(TileKind::Collectible { kind: CollectibleKind::Silver });
    game.get_tile((x, y + 1), silver);
    game.get_tile((x, y + 2), silver);
    step(&mut game, Input::Down, MS);
    step(&mut game, Input::Down, 2 * MS);
    assert_eq!(game.inventory_size(), 1);
    assert_eq!(game.tile((x, y + 1)), Some(Tile::Visible(TileKind::Tunnel)));
    assert_eq!(game.tile((x, y + 2)), Some(silver));
    assert_eq!(game.message(), Some("Your inventory is full!".to_string()));
}

#[test]
fn fuel_and_time_collectibles_are_used_at_once() {
    let mut game = game();
    let (x, y) = game.pos();
    game.get_tile((x, y + 1), Tile::Visible(TileKind::Collectible { kind: CollectibleKind::Fuel }));
    game.get_tile((x, y + 2), Tile::Visible(TileKind::Collectible { kind: CollectibleKind::Time }));
    step(&mut game, Input::Down, MS);
    // the tank never goes past full
    assert_eq!(game.fuel(), 1000);
    assert_eq!(game.message(), Some("Found some extra fuel!".to_string()));
    step(&mut game, Input::Down, 2 * MS);
    assert_eq!(game.remaining_time(), 60 * SEC + 15 * SEC - 2 * MS);
    assert_eq!(game.inventory_size(), 0);
}

#[test]
fn notices_come_down_after_three_seconds() {
    let mut game = game();
    assert_eq!(game.message(), Some("Press an arrow key to move.".to_string()));
    step(&mut game, Input::Down, MS);
    // still up just before three seconds have passed
    game.tick(MS, 3 * SEC);
    assert!(game.message().is_some());
    game.tick(MS, 3 * SEC + 1);
    assert_eq!(game.message(), None);
}

#[test]
fn low_fuel_warns_below_a_fifth() {
    let mut game = Game::new(WIDTH, Loadout { starting_fuel: 10, ..Loadout::base() }, 0);
    for i in 0..4 {
        step(&mut game, Input::Down, (i + 1) * MS);
    }
    // 2 of 10 left: exactly a fifth, not below it
    assert_eq!(game.fuel(), 2);
    assert_eq!(game.message(), Some("Press an arrow key to move.".to_string()));
    step(&mut game, Input::Down, 5 * MS);
    assert_eq!(game.fuel(), 0);
    assert_eq!(game.message(), Some("Warning: low fuel!".to_string()));
    assert!(game.is_over());
    // an empty tank goes nowhere
    let pos = game.pos();
    step(&mut game, Input::Down, 6 * MS);
    assert_eq!(game.pos(), pos);
}

#[test]
fn the_view_follows_the_player() {
    let mut r = Renderer::new();
    r.update_scroll(SKY_HEIGHT - 1, 40);
    assert_eq!(r.scroll(), -1);
    r.update_scroll(100, 40);
    assert_eq!(r.scroll(), 100 + SKY_HEIGHT - 40);
    r.update_scroll(60, 40);
    assert_eq!(r.scroll(), 60 - SKY_HEIGHT);
}

#[test]
fn a_panel_is_drawn_centered() {
    let menu = Menu::new((42, 7));
    let mut buf = String::new();
    menu.render(&mut buf, "T", &["a"], "f");

    let mut expected = String::new();
    expected.push_str("\x1b[48;2;0;0;0m\x1b[38;2;210;210;210m");
    expected.push_str(&format!("\x1b[1;1H▛{}▜", "▀".repeat(40)));
    for row in 2..=6 {
        expected.push_str(&format!("\x1b[{row};1H▌{}▐", " ".repeat(40)));
    }
    expected.push_str(&format!("\x1b[7;1H▙{}▟", "▄".repeat(40)));
    expected.push_str("\x1b[2;21H\x1b[38;2;250;230;120mT");
    expected.push_str("\x1b[3;22H\x1b[38;2;220;220;220m");
    expected.push_str("\x1b[4;21H\x1b[38;2;220;220;220ma");
    expected.push_str("\x1b[5;22H\x1b[38;2;220;220;220m");
    expected.push_str("\x1b[6;21H\x1b[38;2;140;140;140mf");
    assert_eq!(buf, expected);
}

#[test]
fn text_and_boxes_are_escape_sequences() {
    let mut buf = String::new();
    write_text(&mut buf, 4, 9, "hi", (1, 2, 3));
    assert_eq!(buf, "\x1b[5;10H\x1b[38;2;1;2;3mhi");
    let mut b = String::new();
    draw_box(&mut b, (2, 3), 1, 0);
    assert_eq!(b, "\x1b[48;2;0;0;0m\x1b[38;2;210;210;210m\x1b[4;3H▛▀▜\x1b[5;3H▙▄▟");
}

#[test]
fn the_shop_leads_into_a_run() {
    let mut store = Store::new(1_000);
    assert_eq!(clock_limit_ms(Scene::FadeIn), Some(500));
    assert_eq!(on_frame(Scene::FadeIn, false), (Scene::FadeIn, Action::Nothing));
    assert_eq!(on_frame(Scene::FadeIn, true), (Scene::Welcome, Action::Nothing));
    assert_eq!(on_key(Scene::Welcome, Key::Up, false, &mut store), (Scene::Welcome, Action::Nothing));
    assert_eq!(on_key(Scene::Welcome, Key::Enter, false, &mut store), (Scene::Store, Action::Nothing));

    // shopping: raise visibility, move down, lower nothing
    assert_eq!(on_key(Scene::Store, Key::Right, false, &mut store), (Scene::Store, Action::Nothing));
    assert_eq!(store.tier(0), 1);
    on_key(Scene::Store, Key::Down, false, &mut store);
    assert_eq!(store.selected(), 1);
    on_key(Scene::Store, Key::Left, false, &mut store);
    assert_eq!(store.tier(1), 0);
    on_key(Scene::Store, Key::Up, false, &mut store);
    assert_eq!(store.selected(), 0);

    let playing = Scene::Playing { running: true };
    assert_eq!(on_key(Scene::Store, Key::Enter, false, &mut store), (playing, Action::StartRun(100)));
}

#[test]
fn a_run_ticks_pauses_and_ends() {
    let mut store = Store::new(0);
    let playing = Scene::Playing { running: true };
    let paused = Scene::Playing { running: false };
    assert_eq!(clock_limit_ms(playing), Some(50));
    assert_eq!(on_key(playing, Key::Left, false, &mut store), (playing, Action::Move(Input::Left)));
    assert_eq!(on_frame(playing, false), (playing, Action::Nothing));
    assert_eq!(on_frame(playing, true), (playing, Action::Tick));
    assert_eq!(on_key(playing, Key::Char(' '), false, &mut store), (paused, Action::Nothing));
    assert_eq!(on_frame(paused, true), (paused, Action::Nothing));
    assert_eq!(on_key(paused, Key::Char(' '), false, &mut store), (playing, Action::RestartClock));
    assert_eq!(on_game_state(playing, false), (playing, Action::Nothing));
    assert_eq!(on_game_state(playing, true), (Scene::GameOver, Action::RestartClock));

    // the results ignore keys until their delay has passed
    assert_eq!(clock_limit_ms(Scene::GameOver), Some(750));
    assert_eq!(on_key(Scene::GameOver, Key::Enter, false, &mut store), (Scene::GameOver, Action::Nothing));
    assert_eq!(on_key(Scene::GameOver, Key::Enter, true, &mut store), (Scene::FadeOut, Action::RestartClock));
    assert_eq!(on_frame(Scene::FadeOut, true), (Scene::Done, Action::Nothing));
}

#[test]
fn q_leaves_from_anywhere() {
    let mut store = Store::new(500);
    for scene in [Scene::Welcome, Scene::Store, Scene::Playing { running: true }, Scene::GameOver] {
        assert_eq!(on_key(scene, Key::Char('q'), false, &mut store), (Scene::Done, Action::Nothing));
        assert_eq!(on_key(scene, Key::Char('Q'), false, &mut store), (Scene::Done, Action::Nothing));
    }
}

#[test]
fn results_cheer_a_new_best() {
    assert_eq!(
        results_lines(7, 40, 30),
        vec!["Max depth        \u{2193}7", "Gained           40 P", "\u{2605} New best haul! \u{2605}"]
    );
    assert_eq!(results_lines(0, 30, 30)[2], "Best haul        30 P");
}
