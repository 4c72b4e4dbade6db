use alien_shooter::game::{
    check_impact, draw_player_ship, draw_score, handle_alien, handle_bullet, init_game, lose_game,
    win_game, Alien, Bullet, Game, GameState, GameStatus, Impact, Ship, BULLET_HAVEN,
};
use alien_shooter::handlers::{button_handler, decode, tick_handler_1, Command};
use alien_shooter::pixel::{set_pixel, Framebuffer, Pixel};

const BLACK: Pixel = Pixel { r: 0, g: 0, b: 0 };
const RED: Pixel = Pixel { r: 255, g: 0, b: 0 };
const GREEN: Pixel = Pixel { r: 0, g: 255, b: 0 };
const BLUE: Pixel = Pixel { r: 0, g: 0, b: 255 };
const WHITE: Pixel = Pixel { r: 255, g: 255, b: 255 };
const SCORE_DOT: Pixel = Pixel { r: 200, g: 200, b: 200 };
const SHIELD_DOT: Pixel = Pixel { r: 50, g: 100, b: 150 };
const VICTORY: Pixel = Pixel { r: 0, g: 200, b: 100 };

const BANK: u32 = 2;

fn at(state: &GameState, x: usize, y: usize) -> Pixel {
    state.dots.get_pixel(x, y).unwrap()
}

/// A state in play whose matrix is filled with a colour that no drawing uses.
fn marked_state() -> GameState {
    let mut state = GameState::new();
    state.game.status = GameStatus::Playing;
    for x in 0..8 {
        for y in 0..8 {
            set_pixel(&mut state.dots, x, y, 9, 9, 9).unwrap();
        }
    }
    state
}

const MARK: Pixel = Pixel { r: 9, g: 9, b: 9 };

fn assert_frames_equal(a: &Framebuffer, b: &Framebuffer) {
    for x in 0..8 {
        for y in 0..8 {
            assert_eq!(a.get_pixel(x, y), b.get_pixel(x, y), "cell ({}, {})", x, y);
        }
    }
}

/// Sets up a bullet one cell below the top line at `bullet_x` and an alien
/// that its next step brings to `alien_x`.
fn aim(state: &mut GameState, bullet_x: usize, alien_x: usize) {
    state.game.bullet = Bullet { x: bullet_x, y: 1 };
    state.game.alien = Alien { x: alien_x - 1, y: 0, increment: 1 };
    assert!(state.game.is_valid());
}

#[test]
fn new_game_is_the_start() {
    let state = GameState::new();
    let expected = Game {
        open_channel: 0,
        alien: Alien { x: 0, y: 0, increment: 1 },
        ship: Ship { x: 3, y: 7 },
        bullet: Bullet { x: 0, y: 50 },
        frequency: 10,
        score: 0,
        shield: 5,
        status: GameStatus::Init,
    };
    assert_eq!(state.game, expected);
    assert_eq!(Game::new(), expected);
    assert!(state.game.is_valid());
    assert_eq!(BULLET_HAVEN, 50);
    assert_frames_equal(&state.dots, &Framebuffer::new());
}

#[test]
fn init_game_resets_everything() {
    let mut state = marked_state();
    state.game.score = 2;
    state.game.shield = 1;
    state.game.ship.x = 6;
    state.game.frequency = 20;
    state.game.open_channel = 5;
    state.game.bullet = Bullet { x: 4, y: 2 };
    init_game(&mut state);
    assert_eq!(state.game, Game::new());
    assert_frames_equal(&state.dots, &Framebuffer::new());
}

#[test]
fn is_valid_tells_broken_games() {
    let good = Game::new();
    assert!(good.is_valid());
    assert!(!Game { ship: Ship { x: 0, y: 7 }, ..good }.is_valid());
    assert!(!Game { ship: Ship { x: 7, y: 7 }, ..good }.is_valid());
    assert!(!Game { ship: Ship { x: 3, y: 6 }, ..good }.is_valid());
    assert!(!Game { alien: Alien { x: 8, y: 0, increment: 1 }, ..good }.is_valid());
    assert!(!Game { alien: Alien { x: 1, y: 1, increment: 1 }, ..good }.is_valid());
    assert!(!Game { alien: Alien { x: 1, y: 0, increment: 0 }, ..good }.is_valid());
    assert!(!Game { bullet: Bullet { x: 1, y: 10 }, ..good }.is_valid());
    assert!(!Game { bullet: Bullet { x: 1, y: 51 }, ..good }.is_valid());
    assert!(Game { bullet: Bullet { x: 1, y: 9 }, ..good }.is_valid());
    assert!(!Game { score: 3, ..good }.is_valid());
    assert!(Game { score: 3, status: GameStatus::Won, ..good }.is_valid());
    assert!(!Game { status: GameStatus::Won, ..good }.is_valid());
    assert!(!Game { shield: 0, ..good }.is_valid());
    assert!(Game { shield: 0, status: GameStatus::Lost, ..good }.is_valid());
    assert!(!Game { shield: 6, ..good }.is_valid());
    assert!(!Game { frequency: 15, ..good }.is_valid());
    assert!(Game { frequency: 20, ..good }.is_valid());
}

#[test]
fn decode_knows_the_single_inputs_only() {
    assert_eq!(decode(0), Command::Idle);
    assert_eq!(decode(0x01), Command::MoveRight);
    assert_eq!(decode(0x02), Command::Idle);
    assert_eq!(decode(0x04), Command::Fire);
    assert_eq!(decode(0x08), Command::MoveLeft);
    assert_eq!(decode(0x10), Command::Restart);
    assert_eq!(decode(0x20), Command::ToggleSpeed);
    assert_eq!(decode(0x40), Command::Idle);
    assert_eq!(decode(0x05), Command::Idle);
    assert_eq!(decode(0x30), Command::Idle);
    assert_eq!(decode(u32::MAX), Command::Idle);
}

#[test]
fn fire_from_the_start() {
    let mut state = GameState::new();
    assert_eq!(state.game.score, 0);
    assert_eq!(state.game.shield, 5);
    assert_eq!(state.game.ship, Ship { x: 3, y: 7 });
    assert_eq!((state.game.alien.x, state.game.alien.y), (0, 0));
    assert_eq!(state.game.bullet.y, BULLET_HAVEN);
    assert_eq!(button_handler(&mut state, BANK, 0x04), Command::Fire);
    assert_eq!(state.game.bullet, Bullet { x: 3, y: 6 });
    assert!(state.game.bullet.y < 10);
    assert_eq!(state.game, Game { bullet: Bullet { x: 3, y: 6 }, ..Game::new() });
}

#[test]
fn fire_is_refused_while_the_bullet_flies() {
    for y in 0..10 {
        let mut state = GameState::new();
        state.game.bullet = Bullet { x: 5, y };
        let before = state.game;
        assert_eq!(button_handler(&mut state, BANK, 0x04), Command::Fire);
        assert_eq!(state.game, before);
    }
    let mut state = GameState::new();
    state.game.ship.x = 5;
    state.game.bullet = Bullet { x: 2, y: BULLET_HAVEN };
    button_handler(&mut state, BANK, 0x04);
    assert_eq!(state.game.bullet, Bullet { x: 5, y: 6 });
}

#[test]
fn ship_stays_in_its_lane() {
    let mut state = GameState::new();
    let mut expected = 3usize;
    for _ in 0..10 {
        assert_eq!(button_handler(&mut state, BANK, 0x01), Command::MoveRight);
        expected = (expected + 1).min(6);
        assert_eq!(state.game.ship.x, expected);
        assert!(state.game.is_valid());
    }
    assert_eq!(state.game.ship.x, 6);
    for _ in 0..10 {
        assert_eq!(button_handler(&mut state, BANK, 0x08), Command::MoveLeft);
        expected = (expected - 1).max(1);
        assert_eq!(state.game.ship.x, expected);
        assert!(state.game.is_valid());
    }
    assert_eq!(state.game.ship.x, 1);
    let moves = [0x01, 0x01, 0x08, 0x01, 0x01, 0x01, 0x01, 0x08, 0x08, 0x08, 0x08, 0x08, 0x08, 0x08];
    for status in moves {
        button_handler(&mut state, BANK, status);
        assert!((1..=6).contains(&state.game.ship.x));
        assert_eq!(state.game.ship.y, 7);
    }
}

#[test]
fn button_handler_wipes_the_ship() {
    for status in [0u32, 0x01, 0x02, 0x04, 0x08, 0x20, 0x03] {
        let mut state = marked_state();
        state.game.ship.x = 4;
        let before = state.game;
        button_handler(&mut state, BANK, status);
        for x in 0..8 {
            for y in 0..8 {
                let wiped = matches!((x, y), (4, 7) | (3, 7) | (5, 7) | (4, 6));
                assert_eq!(at(&state, x, y), if wiped { BLACK } else { MARK });
            }
        }
        if status == 0 || status == 0x02 || status == 0x03 {
            assert_eq!(state.game, before);
        }
    }
}

#[test]
fn unknown_patterns_change_nothing() {
    for status in [0u32, 0x02, 0x03, 0x05, 0x09, 0x11, 0x40, 0x80, 0xffff_ffff] {
        let mut state = GameState::new();
        state.game.ship.x = 2;
        state.game.score = 1;
        let before = state.game;
        assert_eq!(button_handler(&mut state, BANK, status), Command::Idle);
        assert_eq!(state.game, before);
    }
}

#[test]
fn restart_from_any_status() {
    for status in [GameStatus::Init, GameStatus::Playing, GameStatus::Won, GameStatus::Lost] {
        let mut state = marked_state();
        state.game.status = status;
        state.game.score = if status == GameStatus::Won { 3 } else { 1 };
        state.game.shield = if status == GameStatus::Lost { 0 } else { 2 };
        state.game.frequency = 20;
        state.game.ship.x = 1;
        assert!(state.game.is_valid());
        assert_eq!(button_handler(&mut state, BANK, 0x10), Command::Restart);
        assert_eq!(state.game, Game::new());
        assert_frames_equal(&state.dots, &Framebuffer::new());
        assert_eq!(tick_handler_1(&mut state), Impact::Idle);
        assert_eq!(state.game.status, GameStatus::Playing);
    }
}

#[test]
fn toggle_speed_changes_between_two_rates() {
    let mut state = GameState::new();
    assert_eq!(state.game.frequency, 10);
    assert_eq!(button_handler(&mut state, BANK, 0x20), Command::ToggleSpeed);
    assert_eq!(state.game.frequency, 20);
    assert_eq!(button_handler(&mut state, BANK, 0x20), Command::ToggleSpeed);
    assert_eq!(state.game.frequency, 10);
    assert_eq!(state.game, Game::new());
}

#[test]
fn alien_sweeps_back_and_forth() {
    let mut state = GameState::new();
    let mut seen = Vec::new();
    for _ in 0..16 {
        handle_alien(&mut state);
        seen.push((state.game.alien.x, state.game.alien.increment));
        assert!(state.game.is_valid());
    }
    let xs: Vec<usize> = seen.iter().map(|s| s.0).collect();
    assert_eq!(xs, vec![1, 2, 3, 4, 5, 6, 7, 6, 5, 4, 3, 2, 1, 0, 1, 2]);
    assert_eq!(seen[6], (7, 1));
    assert_eq!(seen[7], (6, -1));
    assert_eq!(seen[13], (0, -1));
    assert_eq!(seen[14], (1, 1));
}

#[test]
fn alien_step_redraws_the_alien() {
    let mut state = marked_state();
    state.game.alien = Alien { x: 4, y: 0, increment: -1 };
    handle_alien(&mut state);
    assert_eq!(state.game.alien, Alien { x: 3, y: 0, increment: -1 });
    for x in 0..8 {
        for y in 0..8 {
            let expected = match (x, y) {
                (4, 0) => BLACK,
                (3, 0) => GREEN,
                _ => MARK,
            };
            assert_eq!(at(&state, x, y), expected);
        }
    }
}

#[test]
fn bullet_climbs_one_cell_a_tick() {
    let mut state = marked_state();
    state.game.bullet = Bullet { x: 2, y: 6 };
    handle_bullet(&mut state);
    assert_eq!(state.game.bullet, Bullet { x: 2, y: 5 });
    for x in 0..8 {
        for y in 0..8 {
            let expected = match (x, y) {
                (2, 6) => BLACK,
                (2, 5) => BLUE,
                _ => MARK,
            };
            assert_eq!(at(&state, x, y), expected);
        }
    }
    for expected in [4, 3, 2, 1, 0, 0] {
        handle_bullet(&mut state);
        assert_eq!(state.game.bullet, Bullet { x: 2, y: expected });
    }
    assert_eq!(at(&state, 2, 0), BLUE);
    assert_eq!(at(&state, 2, 1), BLACK);
}

#[test]
fn parked_bullet_is_left_alone() {
    let mut state = marked_state();
    let before = state;
    handle_bullet(&mut state);
    assert_eq!(state.game, before.game);
    assert_frames_equal(&state.dots, &before.dots);
}

#[test]
fn bullet_below_the_matrix_is_not_drawn() {
    let mut state = marked_state();
    state.game.bullet = Bullet { x: 2, y: 9 };
    handle_bullet(&mut state);
    assert_eq!(state.game.bullet, Bullet { x: 2, y: 8 });
    assert_frames_equal(&state.dots, &marked_state().dots);
    handle_bullet(&mut state);
    assert_eq!(state.game.bullet, Bullet { x: 2, y: 7 });
    assert_eq!(at(&state, 2, 7), BLUE);
}

#[test]
fn ship_is_a_plus() {
    let mut state = marked_state();
    state.game.ship.x = 1;
    draw_player_ship(&mut state);
    for x in 0..8 {
        for y in 0..8 {
            let lit = matches!((x, y), (1, 7) | (0, 7) | (2, 7) | (1, 6));
            assert_eq!(at(&state, x, y), if lit { RED } else { MARK });
        }
    }
}

#[test]
fn hit_scores_and_parks_the_bullet() {
    let mut state = GameState::new();
    state.game.status = GameStatus::Playing;
    aim(&mut state, 3, 3);
    assert_eq!(tick_handler_1(&mut state), Impact::Hit);
    assert_eq!(state.game.alien.x, 3);
    assert_eq!(state.game.score, 1);
    assert_eq!(state.game.shield, 5);
    assert_eq!(state.game.bullet, Bullet { x: 3, y: BULLET_HAVEN });
    assert_eq!(state.game.status, GameStatus::Playing);
    // debris on both sides of the alien, whose cell shows the bullet
    assert_eq!(at(&state, 2, 0), WHITE);
    assert_eq!(at(&state, 4, 0), WHITE);
    assert_eq!(at(&state, 3, 0), BLUE);
    assert_eq!(at(&state, 3, 1), BLACK);
}

#[test]
fn hit_judged_at_impact_alone() {
    let mut state = marked_state();
    state.game.alien = Alien { x: 3, y: 0, increment: 1 };
    state.game.bullet = Bullet { x: 3, y: 0 };
    assert_eq!(check_impact(&mut state), Impact::Hit);
    assert_eq!(
        state.game,
        Game {
            alien: Alien { x: 3, y: 0, increment: 1 },
            bullet: Bullet { x: 3, y: 50 },
            score: 1,
            status: GameStatus::Playing,
            ..Game::new()
        }
    );
    for x in 0..8 {
        for y in 0..8 {
            let expected = if (x, y) == (2, 0) || (x, y) == (4, 0) { WHITE } else { MARK };
            assert_eq!(at(&state, x, y), expected);
        }
    }
}

#[test]
fn miss_costs_one_shield() {
    let mut state = GameState::new();
    state.game.status = GameStatus::Playing;
    aim(&mut state, 5, 3);
    assert_eq!(tick_handler_1(&mut state), Impact::Miss);
    assert_eq!(state.game.alien.x, 3);
    assert_eq!(state.game.shield, 4);
    assert_eq!(state.game.score, 0);
    assert_eq!(state.game.bullet, Bullet { x: 5, y: BULLET_HAVEN });
    assert_eq!(state.game.status, GameStatus::Playing);
    assert_eq!(at(&state, 4, 0), BLACK);
    assert_eq!(at(&state, 6, 0), BLACK);
}

#[test]
fn impact_waits_for_the_top_line() {
    for y in [1usize, 2, 6, 9, BULLET_HAVEN] {
        let mut state = marked_state();
        state.game.alien = Alien { x: 3, y: 0, increment: 1 };
        state.game.bullet = Bullet { x: 3, y };
        let before = state;
        assert_eq!(check_impact(&mut state), Impact::Idle);
        assert_eq!(state.game, before.game);
        assert_frames_equal(&state.dots, &before.dots);
    }
}

#[test]
fn debris_at_the_edges_stays_on_the_matrix() {
    let mut state = marked_state();
    state.game.alien = Alien { x: 0, y: 0, increment: 1 };
    state.game.bullet = Bullet { x: 0, y: 0 };
    assert_eq!(check_impact(&mut state), Impact::Hit);
    for x in 0..8 {
        for y in 0..8 {
            assert_eq!(at(&state, x, y), if (x, y) == (1, 0) { WHITE } else { MARK });
        }
    }
    let mut state = marked_state();
    state.game.alien = Alien { x: 7, y: 0, increment: -1 };
    state.game.bullet = Bullet { x: 7, y: 0 };
    assert_eq!(check_impact(&mut state), Impact::Hit);
    for x in 0..8 {
        for y in 0..8 {
            assert_eq!(at(&state, x, y), if (x, y) == (6, 0) { WHITE } else { MARK });
        }
    }
}

#[test]
fn three_hits_win() {
    let mut state = GameState::new();
    tick_handler_1(&mut state);
    assert_eq!(state.game.status, GameStatus::Playing);
    for hits in 1..=3u16 {
        state.game.ship.x = 4;
        aim(&mut state, 4, 4);
        assert_eq!(tick_handler_1(&mut state), Impact::Hit);
        assert_eq!(state.game.score, hits);
        assert_eq!(state.game.bullet.y, BULLET_HAVEN);
        let expected = if hits == 3 { GameStatus::Won } else { GameStatus::Playing };
        assert_eq!(state.game.status, expected);
        assert!(state.game.is_valid());
    }
    assert_eq!(state.game.shield, 5);
    for (x, y) in [(4, 3), (5, 1), (4, 4), (5, 2), (1, 2), (2, 4)] {
        assert_eq!(at(&state, x, y), VICTORY);
    }
    // one score cell for each hit, one shield cell for each miss left
    for y in 0..6 {
        assert_eq!(at(&state, 0, y), if y < 3 { SCORE_DOT } else { BLACK });
        assert_eq!(at(&state, 7, y), if y < 5 { SHIELD_DOT } else { BLACK });
    }

    // further ticks move nothing, but draw the indicators
    let frozen = state.game;
    set_pixel(&mut state.dots, 0, 1, 1, 2, 3).unwrap();
    set_pixel(&mut state.dots, 0, 4, 1, 2, 3).unwrap();
    set_pixel(&mut state.dots, 7, 4, 1, 2, 3).unwrap();
    set_pixel(&mut state.dots, 7, 5, 1, 2, 3).unwrap();
    set_pixel(&mut state.dots, 3, 3, 1, 2, 3).unwrap();
    for _ in 0..5 {
        assert_eq!(tick_handler_1(&mut state), Impact::Idle);
        assert_eq!(state.game, frozen);
        assert_eq!(state.game.ship, frozen.ship);
        assert_eq!(state.game.alien, frozen.alien);
        assert_eq!(state.game.bullet, frozen.bullet);
    }
    assert_eq!(at(&state, 0, 1), SCORE_DOT);
    assert_eq!(at(&state, 0, 4), BLACK);
    assert_eq!(at(&state, 7, 4), SHIELD_DOT);
    assert_eq!(at(&state, 7, 5), BLACK);
    assert_eq!(at(&state, 3, 3), Pixel { r: 1, g: 2, b: 3 });
    assert_eq!(at(&state, 4, 3), VICTORY);
}

#[test]
fn five_misses_lose() {
    let mut state = GameState::new();
    for misses in 1..=5u16 {
        aim(&mut state, 6, 2);
        assert_eq!(tick_handler_1(&mut state), Impact::Miss);
        assert_eq!(state.game.shield, 5 - misses);
        assert!(state.game.shield <= 5);
        assert_eq!(state.game.bullet.y, BULLET_HAVEN);
        let expected = if misses == 5 { GameStatus::Lost } else { GameStatus::Playing };
        assert_eq!(state.game.status, expected);
        assert!(state.game.is_valid());
    }
    assert_eq!(state.game.shield, 0);
    assert_eq!(state.game.score, 0);
    // both gauges are empty: no hit, no shield left
    for y in 0..6 {
        assert_eq!(at(&state, 7, y), BLACK);
        assert_eq!(at(&state, 0, y), BLACK);
    }
    assert_eq!(at(&state, 1, 0), Pixel { r: 17, g: 33, b: 49 });

    let frozen = state.game;
    for _ in 0..3 {
        assert_eq!(tick_handler_1(&mut state), Impact::Idle);
        assert_eq!(state.game, frozen);
    }
    // a shot is still taken, but does not fly
    button_handler(&mut state, BANK, 0x04);
    assert_eq!(state.game.bullet, Bullet { x: 3, y: 6 });
    tick_handler_1(&mut state);
    assert_eq!(state.game.bullet, Bullet { x: 3, y: 6 });
    assert_eq!(state.game.status, GameStatus::Lost);
}

#[test]
fn explosion_colours() {
    let mut state = marked_state();
    lose_game(&mut state);
    assert_eq!(state.game, Game { status: GameStatus::Lost, ..marked_state().game });
    for x in 0..8usize {
        for y in 0..8usize {
            let expected = if x < 7 && y < 7 {
                let k = 7 * x + y + 1;
                let b = if k < 40 { 1 + 6 * k } else { 6 * (k - 40) };
                Pixel { r: (1 + 2 * k) as u8, g: (1 + 4 * k) as u8, b: b as u8 }
            } else {
                MARK
            };
            assert_eq!(at(&state, x, y), expected);
        }
    }
    assert_eq!(at(&state, 0, 0), Pixel { r: 3, g: 5, b: 7 });
    assert_eq!(at(&state, 5, 3), Pixel { r: 79, g: 157, b: 235 });
    assert_eq!(at(&state, 5, 4), Pixel { r: 81, g: 161, b: 0 });
    assert_eq!(at(&state, 5, 5), Pixel { r: 83, g: 165, b: 6 });
    assert_eq!(at(&state, 6, 6), Pixel { r: 99, g: 197, b: 54 });
}

#[test]
fn victory_sign() {
    let mut state = marked_state();
    win_game(&mut state);
    assert_eq!(state.game, Game { status: GameStatus::Won, ..marked_state().game });
    for x in 0..8 {
        for y in 0..8 {
            let lit = matches!((x, y), (4, 3) | (5, 1) | (4, 4) | (5, 2) | (1, 2) | (2, 4));
            assert_eq!(at(&state, x, y), if lit { VICTORY } else { MARK });
        }
    }
}

/// Draws the indicators over a marked matrix and holds every cell against
/// the counters.
fn assert_indicators(score: u16, shield: u16, status: GameStatus) {
    let mut state = marked_state();
    state.game.score = score;
    state.game.shield = shield;
    state.game.status = status;
    assert!(state.game.is_valid());
    let before = state.game;
    draw_score(&mut state);
    assert_eq!(state.game, before);
    for x in 0..8usize {
        for y in 0..8usize {
            let expected = if x == 0 && y < 6 {
                if y < score as usize { SCORE_DOT } else { BLACK }
            } else if x == 7 && y < 6 {
                if y < shield as usize { SHIELD_DOT } else { BLACK }
            } else {
                MARK
            };
            assert_eq!(at(&state, x, y), expected, "cell ({}, {})", x, y);
        }
    }
}

#[test]
fn indicators_follow_the_counters() {
    for score in 0..3u16 {
        for shield in 1..=5u16 {
            assert_indicators(score, shield, GameStatus::Playing);
        }
    }
    for shield in 1..=5u16 {
        assert_indicators(3, shield, GameStatus::Won);
    }
    for score in 0..3u16 {
        assert_indicators(score, 0, GameStatus::Lost);
    }
}

#[test]
fn new_game_shows_no_score_and_a_full_shield() {
    let mut state = GameState::new();
    draw_score(&mut state);
    for y in 0..8 {
        assert_eq!(at(&state, 0, y), BLACK);
        assert_eq!(at(&state, 7, y), if y < 5 { SHIELD_DOT } else { BLACK });
    }
}

#[test]
fn indicators_grow_with_hits_and_shrink_with_misses() {
    let mut state = GameState::new();
    tick_handler_1(&mut state);
    let lit = |state: &GameState, x: usize, dot: Pixel| {
        (0..6).filter(|y| at(state, x, *y) == dot).count()
    };
    assert_eq!((lit(&state, 0, SCORE_DOT), lit(&state, 7, SHIELD_DOT)), (0, 5));
    aim(&mut state, 4, 4);
    assert_eq!(tick_handler_1(&mut state), Impact::Hit);
    assert_eq!((lit(&state, 0, SCORE_DOT), lit(&state, 7, SHIELD_DOT)), (1, 5));
    aim(&mut state, 2, 4);
    assert_eq!(tick_handler_1(&mut state), Impact::Miss);
    assert_eq!((lit(&state, 0, SCORE_DOT), lit(&state, 7, SHIELD_DOT)), (1, 4));
    aim(&mut state, 2, 4);
    assert_eq!(tick_handler_1(&mut state), Impact::Miss);
    assert_eq!((lit(&state, 0, SCORE_DOT), lit(&state, 7, SHIELD_DOT)), (1, 3));
    assert_eq!(at(&state, 7, 2), SHIELD_DOT);
    assert_eq!(at(&state, 7, 3), BLACK);
    assert_eq!(at(&state, 0, 0), SCORE_DOT);
    assert_eq!(at(&state, 0, 1), BLACK);
}

#[test]
fn impact_on_a_finished_game_changes_nothing() {
    // a miss on an empty shield leaves it empty
    let mut state = marked_state();
    state.game.status = GameStatus::Lost;
    state.game.shield = 0;
    state.game.alien = Alien { x: 3, y: 0, increment: 1 };
    state.game.bullet = Bullet { x: 5, y: 0 };
    assert!(state.game.is_valid());
    let before = state;
    assert_eq!(check_impact(&mut state), Impact::Idle);
    assert_eq!(state.game.shield, 0);
    assert_eq!(state.game, before.game);
    assert_frames_equal(&state.dots, &before.dots);

    // a hit on a won game adds nothing
    let mut state = marked_state();
    state.game.status = GameStatus::Won;
    state.game.score = 3;
    state.game.alien = Alien { x: 3, y: 0, increment: 1 };
    state.game.bullet = Bullet { x: 3, y: 0 };
    assert!(state.game.is_valid());
    let before = state;
    assert_eq!(check_impact(&mut state), Impact::Idle);
    assert_eq!(state.game.score, 3);
    assert_eq!(state.game, before.game);
    assert_frames_equal(&state.dots, &before.dots);
}

#[test]
fn last_miss_empties_the_shield_and_no_further() {
    let mut state = marked_state();
    state.game.shield = 1;
    state.game.alien = Alien { x: 3, y: 0, increment: 1 };
    state.game.bullet = Bullet { x: 5, y: 0 };
    assert_eq!(check_impact(&mut state), Impact::Miss);
    assert_eq!(state.game.shield, 0);
    assert_eq!(state.game.status, GameStatus::Lost);
    assert_eq!(state.game.bullet, Bullet { x: 5, y: BULLET_HAVEN });
    state.game.bullet = Bullet { x: 5, y: 0 };
    assert_eq!(check_impact(&mut state), Impact::Idle);
    assert_eq!(state.game.shield, 0);
    assert_eq!(state.game.status, GameStatus::Lost);
}

#[test]
fn first_tick_of_a_new_game() {
    let mut state = GameState::new();
    assert_eq!(tick_handler_1(&mut state), Impact::Idle);
    assert_eq!(
        state.game,
        Game {
            alien: Alien { x: 1, y: 0, increment: 1 },
            status: GameStatus::Playing,
            ..Game::new()
        }
    );
    for x in 0..8usize {
        for y in 0..8usize {
            let expected = match (x, y) {
                (1, 0) => GREEN,
                (3, 7) | (2, 7) | (4, 7) | (3, 6) => RED,
                (7, _) if y < 5 => SHIELD_DOT,
                _ => BLACK,
            };
            assert_eq!(at(&state, x, y), expected, "cell ({}, {})", x, y);
        }
    }
}

#[test]
fn a_round_played_through_the_handlers() {
    let mut state = GameState::new();
    for _ in 0..5 {
        assert_eq!(tick_handler_1(&mut state), Impact::Idle);
    }
    assert_eq!(state.game.alien.x, 5);
    button_handler(&mut state, BANK, 0x04);
    assert_eq!(state.game.bullet, Bullet { x: 3, y: 6 });
    for expected_y in [5usize, 4, 3, 2, 1] {
        assert_eq!(tick_handler_1(&mut state), Impact::Idle);
        assert_eq!(state.game.bullet, Bullet { x: 3, y: expected_y });
    }
    assert_eq!(state.game.alien, Alien { x: 4, y: 0, increment: -1 });
    // the bullet reaches the top line as the alien reaches its column
    assert_eq!(tick_handler_1(&mut state), Impact::Hit);
    assert_eq!(state.game.alien.x, 3);
    assert_eq!(state.game.score, 1);
    assert_eq!(state.game.shield, 5);
    assert_eq!(state.game.bullet.y, BULLET_HAVEN);
    // the next shot, from one cell to the right, misses
    button_handler(&mut state, BANK, 0x01);
    button_handler(&mut state, BANK, 0x04);
    assert_eq!(state.game.bullet, Bullet { x: 4, y: 6 });
    let mut reports = Vec::new();
    for _ in 0..6 {
        reports.push(tick_handler_1(&mut state));
    }
    assert_eq!(
        reports,
        vec![Impact::Idle, Impact::Idle, Impact::Idle, Impact::Idle, Impact::Idle, Impact::Miss]
    );
    assert_eq!(state.game.alien.x, 3);
    assert_eq!(state.game.shield, 4);
    assert_eq!(state.game.score, 1);
    assert!(state.game.is_valid());
}
